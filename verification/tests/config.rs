use clap::builder::{BoolishValueParser, TypedValueParser};
use clap::parser::ValueSource as ClapSource;
use clap::{Arg, ArgAction, ArgGroup, ArgMatches, Command};
use netixfs::arguments::{get_many, get_one, Origin};
use netixfs::choices::{LogFormat, LogLevel, SymlinkPolicy};
use netixfs::config::cors::{parse_methods, CorsConfig};
use netixfs::config::filesystem::FilesystemConfig;
use netixfs::config::jwt::{JwtConfig, JwtSource};
use netixfs::config::resolver::{parse_under, Addresses, Resolver};
use netixfs::config::tls::TlsConfig;
use netixfs::config::{config_file, load, Config, LoadError};
use netixfs::duration::{Duration, HumanDuration};
use netixfs::error::ConfigError;
use netixfs::mode::FileMode;
use netixfs::parameter::{get_from_file_config, Action, ArgSpec, FileLookup, Kind};
use netixfs::parameters;
use netixfs::path::FsPath;
use netixfs::root::Root;
use netixfs::scalars::{ByteSize, IpAddr, SocketAddr, Url};
use netixfs::setting::Setting;
use netixfs::value::{Value, ValueSource};

fn argument(spec: &ArgSpec) -> Arg {
    let action = match spec.action {
        Action::Single => ArgAction::Set,
        Action::Append => ArgAction::Append,
    };
    let kind = spec.kind;
    let arg = Arg::new(spec.id).long(spec.long).env(spec.environment).action(action);
    if kind == Kind::Flag {
        return arg.value_parser(BoolishValueParser::new().map(Setting::Flag));
    }
    arg.value_parser(move |text: &str| setting(kind, text).ok_or("invalid"))
}

fn setting(kind: Kind, text: &str) -> Option<Setting> {
    match kind {
        Kind::Flag => None,
        Kind::Port => text.parse().ok().map(Setting::Port),
        Kind::Count => text.parse().ok().map(Setting::Count),
        Kind::Text => Some(Setting::Text(text.to_owned())),
        Kind::Path => Some(Setting::Path(FsPath::new(text))),
        Kind::Url => Url::parse(text).map(Setting::Url),
        Kind::Size => ByteSize::parse(text).map(Setting::Size),
        Kind::Span => text.parse::<HumanDuration>().ok().map(Setting::Span),
        Kind::Mode => text.parse::<FileMode>().ok().map(Setting::Mode),
        Kind::Root => text.parse::<Root>().ok().map(|_| Setting::Text(text.to_owned())),
        Kind::Level => LogLevel::from_argument(text).map(Setting::Level),
        Kind::Format => LogFormat::from_argument(text).map(Setting::Format),
        Kind::Symlinks => SymlinkPolicy::from_argument(text).map(Setting::Symlinks),
        Kind::Ip => octets(text).map(|octets| Setting::Ip(IpAddr::V4(octets))),
        Kind::Socket => socket(text).map(Setting::Socket),
    }
}

fn octets(text: &str) -> Option<[u8; 4]> {
    let parts: Vec<u8> = text.split('.').filter_map(|part| part.parse().ok()).collect();
    parts.try_into().ok()
}

fn socket(text: &str) -> Option<SocketAddr> {
    let (address, port) = text.split_once(':')?;
    Some(SocketAddr::V4 { octets: octets(address)?, port: port.parse().ok()? })
}

fn command() -> Command {
    let mut command = Command::new("test").no_binary_name(true);
    for spec in parameters::arguments() {
        command = command.arg(argument(&spec));
    }
    for group in parameters::argument_groups() {
        command = command.group(ArgGroup::new(group.id).args(group.args));
    }
    command
}

fn matches(args: &[&str]) -> ArgMatches {
    command().try_get_matches_from(args).unwrap()
}

fn table(text: &str) -> toml::Table {
    toml::from_str(text).unwrap()
}

fn ip(text: &str) -> Option<IpAddr> {
    octets(text).map(IpAddr::V4)
}

fn addresses(file: &toml::Table) -> Addresses {
    Addresses::read(file, &ip, &socket)
}

fn shown(path: &FsPath) -> String {
    format!("{:?}", std::path::Path::new(std::str::from_utf8(&path.bytes).unwrap()))
}

fn no_addresses() -> Addresses {
    Addresses {
        server: FileLookup::Absent,
        metrics: FileLookup::Absent,
        config_endpoint: FileLookup::Absent,
    }
}

fn resolver<'a>(arguments: &'a ArgMatches, file: Option<&'a toml::Table>) -> Resolver<'a> {
    Resolver {
        arguments,
        file_config: file,
        addresses: file.map(addresses).unwrap_or_else(no_addresses),
    }
}

fn resolve(arguments: &ArgMatches, file: &toml::Table) -> Result<Config, ConfigError> {
    Config::resolve(config_file(arguments).unwrap(), resolver(arguments, Some(file)))
}

fn value<T>(
    value: T,
    source: ValueSource,
    names: (&'static str, &'static str, &'static str),
    sensitive: bool,
) -> Value<T> {
    Value {
        value,
        source,
        id: names.0,
        toml: Some(names.0),
        argument: names.1,
        environment: names.2,
        sensitive,
    }
}

const KEY_PATH: (&str, &str, &str) = (
    "auth.jwt.public_key_path",
    "--jwt-public-key-path",
    "NETIXFS_AUTH_JWT_PUBLIC_KEY_PATH",
);
const KEY_URL: (&str, &str, &str) =
    ("auth.jwt.public_key_url", "--jwt-public-key-url", "NETIXFS_AUTH_JWT_PUBLIC_KEY_URL");
const JWKS_PATH: (&str, &str, &str) =
    ("auth.jwt.jwks_path", "--jwt-jwks-path", "NETIXFS_AUTH_JWT_JWKS_PATH");
const JWKS_URL: (&str, &str, &str) =
    ("auth.jwt.jwks_url", "--jwt-jwks-url", "NETIXFS_AUTH_JWT_JWKS_URL");

fn path(text: &str) -> Option<FsPath> {
    Some(FsPath::new(text))
}

fn url(text: &str) -> Option<Url> {
    Some(Url::parse(text).unwrap())
}

#[test]
fn test_jwt_source_resolve_single_path() {
    let public_key_path = value(path("/path/to/key.pub"), ValueSource::Argument, KEY_PATH, false);
    let public_key_url = value(None, ValueSource::Default, KEY_URL, true);
    let jwks_path = value(None, ValueSource::Default, JWKS_PATH, false);
    let jwks_url = value(None, ValueSource::Default, JWKS_URL, true);

    let source =
        JwtSource::resolve(public_key_path, public_key_url, jwks_path, jwks_url).unwrap();
    match source {
        JwtSource::PublicKeyPath(value) => {
            assert_eq!(value.value, FsPath::new("/path/to/key.pub"));
            assert_eq!(value.source, ValueSource::Argument);
        }
        _ => panic!("Expected PublicKeyPath variant"),
    }
}

#[test]
fn test_jwt_source_resolve_no_source() {
    let public_key_path = value(None, ValueSource::Default, KEY_PATH, false);
    let public_key_url = value(None, ValueSource::Default, KEY_URL, true);
    let jwks_path = value(None, ValueSource::Default, JWKS_PATH, false);
    let jwks_url = value(None, ValueSource::Default, JWKS_URL, true);

    let result = JwtSource::resolve(public_key_path, public_key_url, jwks_path, jwks_url);
    assert!(result.is_err());
    assert!(result
        .unwrap_err()
        .message()
        .contains("one and only one JWT source must be provided"));
}

#[test]
fn test_jwt_source_resolve_multiple_sources() {
    let public_key_path = value(path("/path/to/key.pub"), ValueSource::Argument, KEY_PATH, false);
    let public_key_url =
        value(url("https://example.com/key.pub"), ValueSource::Argument, KEY_URL, true);
    let jwks_path = value(None, ValueSource::Default, JWKS_PATH, false);
    let jwks_url = value(None, ValueSource::Default, JWKS_URL, true);

    let result = JwtSource::resolve(public_key_path, public_key_url, jwks_path, jwks_url);
    assert!(result.is_err());
    let message = result.unwrap_err().message();
    assert!(message.contains("only one JWT source must be specified"));
    assert_eq!(
        message,
        "only one JWT source must be specified (found \"auth.jwt.public_key_path\" and \
         \"auth.jwt.public_key_url\" in command line arguments)"
    );
}

#[test]
fn jwks_is_preferred_over_a_public_key() {
    let source = JwtSource::resolve(
        value(path("/key.pub"), ValueSource::Argument, KEY_PATH, false),
        value(None, ValueSource::Default, KEY_URL, true),
        value(None, ValueSource::Default, JWKS_PATH, false),
        value(url("https://example.com/jwks"), ValueSource::ConfigFile, JWKS_URL, true),
    )
    .unwrap();
    match source {
        JwtSource::JwksUrl(value) => {
            assert_eq!(value.value.text, "https://example.com/jwks");
            assert_eq!(value.source, ValueSource::ConfigFile);
            assert!(value.sensitive);
        }
        other => panic!("unexpected {:?}", other),
    }
}

#[test]
fn higher_source_of_keys_wins() {
    let source = JwtSource::resolve(
        value(path("/key.pub"), ValueSource::ConfigFile, KEY_PATH, false),
        value(url("https://example.com/key"), ValueSource::Environment, KEY_URL, true),
        value(None, ValueSource::Default, JWKS_PATH, false),
        value(None, ValueSource::Default, JWKS_URL, true),
    )
    .unwrap();
    assert!(matches!(source, JwtSource::PublicKeyUrl(_)));

    let source = JwtSource::resolve(
        value(None, ValueSource::Default, KEY_PATH, false),
        value(None, ValueSource::Default, KEY_URL, true),
        value(path("/jwks"), ValueSource::Argument, JWKS_PATH, false),
        value(url("https://example.com/jwks"), ValueSource::Environment, JWKS_URL, true),
    )
    .unwrap();
    assert!(matches!(source, JwtSource::JwksPath(_)));
}

#[test]
fn source_of_keys_without_a_value() {
    let error = JwtSource::resolve(
        value(None, ValueSource::Argument, KEY_PATH, false),
        value(None, ValueSource::Default, KEY_URL, true),
        value(None, ValueSource::Default, JWKS_PATH, false),
        value(None, ValueSource::Default, JWKS_URL, true),
    )
    .unwrap_err();
    assert_eq!(error, ConfigError::JwtValue);
    assert_eq!(error.message(), "logic error: JWT source has a source but no value");
}

#[test]
fn both_sorts_of_keys_can_be_given_at_once() {
    let arguments =
        matches(&["--jwt-public-key-path", "/key.pub", "--jwt-jwks-path", "/jwks.json"]);
    let config = JwtConfig::resolve(resolver(&arguments, None)).unwrap();
    assert!(matches!(config.source, JwtSource::JwksPath(_)));
    assert!(command()
        .try_get_matches_from([
            "--jwt-jwks-url",
            "https://example.com/jwks",
            "--jwt-jwks-path",
            "/jwks.json"
        ])
        .is_err());
}

#[test]
fn test_tls_config_resolve_enabled_with_certs() {
    let arguments = command().get_matches_from(Vec::<String>::new());
    let toml_config = table(
        "[tls]\nenabled = true\ncert_path = \"/path/to/cert.pem\"\nkey_path = \"/path/to/key.pem\"\n",
    );

    let result = TlsConfig::resolve(resolver(&arguments, Some(&toml_config)));
    assert!(result.is_ok());
    let tls_config = result.unwrap();

    assert!(tls_config.enabled.value);
    assert_eq!(tls_config.cert_path.value, path("/path/to/cert.pem"));
    assert_eq!(tls_config.key_path.value, path("/path/to/key.pem"));
    assert_eq!(tls_config.enabled.source, ValueSource::ConfigFile);
    assert_eq!(tls_config.cert_path.source, ValueSource::ConfigFile);
    assert_eq!(tls_config.key_path.source, ValueSource::ConfigFile);
}

#[test]
fn test_tls_config_resolve_enabled_without_certs() {
    let arguments = command().get_matches_from(Vec::<String>::new());
    let toml_config = table("[tls]\nenabled = true\n");

    let result = TlsConfig::resolve(resolver(&arguments, Some(&toml_config)));
    assert!(result.is_err());
    let err_msg = result.unwrap_err().message();
    assert!(err_msg.contains("tls.cert_path") && err_msg.contains("required when TLS is enabled"));
    assert_eq!(
        err_msg,
        "\"tls.cert_path\" is required when TLS is enabled (set from command line argument \
         \"--tls-cert-path\" or from environment variable \"NETIXFS_TLS_CERT_PATH\")"
    );
}

#[test]
fn test_tls_config_resolve_enabled_without_key() {
    let arguments = command().get_matches_from(Vec::<String>::new());
    let toml_config = table("[tls]\nenabled = true\ncert_path = \"/path/to/cert.pem\"\n");

    let result = TlsConfig::resolve(resolver(&arguments, Some(&toml_config)));
    assert!(result.is_err());
    let err_msg = result.unwrap_err().message();
    assert!(err_msg.contains("tls.key_path") && err_msg.contains("required when TLS is enabled"));
}

#[test]
fn test_tls_config_resolve_disabled() {
    let arguments = command().try_get_matches_from(Vec::<String>::new()).unwrap();

    let result = TlsConfig::resolve(resolver(&arguments, None));
    assert!(result.is_ok());
    let tls_config = result.unwrap();

    assert!(!tls_config.enabled.value);
    assert_eq!(tls_config.cert_path.value, None);
    assert_eq!(tls_config.key_path.value, None);
}

#[test]
fn test_cors_config_resolve_enabled_requires_origins() {
    let arguments = matches(&["--cors-enabled", "true"]);
    let error = CorsConfig::resolve(resolver(&arguments, None)).unwrap_err();
    assert_eq!(error, ConfigError::CorsOrigins);
    assert_eq!(
        error.message(),
        "at least one CORS allowed origin must be specified if CORS is enabled"
    );
}

#[test]
fn cors_methods_are_read() {
    let arguments = matches(&[
        "--cors-enabled",
        "true",
        "--cors-allowed-origin",
        "https://a.example",
        "--cors-allowed-origin",
        "https://b.example",
        "--cors-allowed-method",
        "GET",
        "--cors-allowed-method",
        "PURGE",
        "--cors-max-age",
        "1h 30m",
    ]);
    let config = CorsConfig::resolve(resolver(&arguments, None)).unwrap();
    assert_eq!(config.allowed_origins.value, ["https://a.example", "https://b.example"]);
    let names: Vec<&str> =
        config.allowed_methods.value.iter().map(|method| method.name.as_str()).collect();
    assert_eq!(names, ["GET", "PURGE"]);
    assert_eq!(config.allowed_methods.source, ValueSource::Argument);
    assert_eq!(config.allowed_methods.id, "cors.allowed_methods");
    assert_eq!(config.max_age.value, Duration { secs: 5400, nanos: 0 });

    let arguments = matches(&["--cors-allowed-method", "GET IT"]);
    let error = CorsConfig::resolve(resolver(&arguments, None)).unwrap_err();
    assert_eq!(error, ConfigError::CorsMethod);
    assert_eq!(error.message(), "invalid HTTP method");
    assert_eq!(parse_methods(vec![String::new()]), Err(ConfigError::CorsMethod));
}

#[test]
fn cors_is_off_by_default() {
    let arguments = matches(&[]);
    let config = CorsConfig::resolve(resolver(&arguments, None)).unwrap();
    assert!(!config.enabled.value);
    assert!(config.allowed_origins.value.is_empty());
    assert!(config.allowed_methods.value.is_empty());
    assert_eq!(config.max_age.value, Duration { secs: 0, nanos: 0 });
    assert!(!config.allow_credentials.value);
    assert!(!config.allow_private_network.value);
}

#[test]
fn test_filesystem_config_resolve_requires_roots() {
    let arguments = matches(&[]);
    let error = FilesystemConfig::resolve(resolver(&arguments, None)).unwrap_err();
    assert_eq!(
        error,
        ConfigError::Roots {
            id: "filesystem.allowed_roots",
            argument: "--allowed-root",
            environment: "NETIXFS_FILESYSTEM_ALLOWED_ROOTS",
        }
    );
    assert_eq!(
        error.message(),
        "at least one root must be configured in \"filesystem.allowed_roots\" (set from command \
         line argument \"--allowed-root\" or from environment variable \
         \"NETIXFS_FILESYSTEM_ALLOWED_ROOTS\")"
    );
}

const FILE: &str = r#"
[server]
bind_address = "127.0.0.1"
port = 9000

[filesystem]
allowed_roots = ["root1=/tmp/root1"]
read_only = true

[auth.jwt]
public_key_path = "/path/to/key.pub"
username_claim = "username"
"#;

#[test]
fn test_config_resolve_with_toml_file() {
    let arguments = matches(&[]);
    let toml_config = table(FILE);

    let result = resolve(&arguments, &toml_config);
    assert!(result.is_ok());
    let config = result.unwrap();

    assert_eq!(config.server.port.value, 9000);
    assert!(config.filesystem.read_only.value);
    assert_eq!(config.auth.jwt.username_claim.value, "username");
}

#[test]
fn test_config_resolve_source_priority_cli_overrides_toml() {
    let arguments = matches(&["--port", "9999"]);
    let toml_config = table(FILE);

    let result = resolve(&arguments, &toml_config);
    assert!(result.is_ok());
    let config = result.unwrap();

    assert!(matches!(
        config.server.port,
        Value { value: 9999, source: ValueSource::Argument, .. }
    ));
    assert_eq!(config.server.bind_address.source, ValueSource::ConfigFile);
    assert_eq!(config.server.bind_address.value, IpAddr::V4([127, 0, 0, 1]));
}

#[test]
fn test_config_resolve_defaults_used_when_no_source() {
    let arguments = matches(&[]);
    let toml_config = toml::Table::new();

    let result = resolve(&arguments, &toml_config);
    assert!(result.is_err());
    let err_msg = result.unwrap_err().message();
    assert!(
        err_msg.contains("at least one root must be configured")
            || err_msg.contains("filesystem.allowed_roots")
            || err_msg.contains("JWT source")
    );
}

#[test]
fn test_config_resolve_with_filesystem_roots_from_toml() {
    let arguments = matches(&[]);
    let toml_config = table(
        "[filesystem]\nallowed_roots = [\"root1=/tmp/root1\", \"root2=/tmp/root2\"]\n\n\
         [auth.jwt]\npublic_key_path = \"/path/to/key.pub\"\n",
    );

    let result = resolve(&arguments, &toml_config);
    assert!(result.is_ok());
    let config = result.unwrap();

    match config.filesystem.allowed_roots.value.as_slice() {
        [root1, root2] => {
            assert_eq!(root1, &Root { id: "root1".into(), path: FsPath::new("/tmp/root1") });
            assert_eq!(root2, &Root { id: "root2".into(), path: FsPath::new("/tmp/root2") });
        }
        other => panic!("unexpected {:?}", other),
    }
}

#[test]
fn test_config_resolve_source_tracking() {
    let arguments = matches(&[]);
    let toml_config = table(
        "[server]\nport = 9000\n\n[filesystem]\nallowed_roots = [\"root1=/tmp/root1\"]\n\n\
         [auth.jwt]\npublic_key_path = \"/path/to/key.pub\"\n",
    );

    let result = resolve(&arguments, &toml_config);
    assert!(result.is_ok());
    let config = result.unwrap();

    assert_eq!(config.server.port.source, ValueSource::ConfigFile);
    assert_eq!(config.filesystem.allowed_roots.source, ValueSource::ConfigFile);
    assert_eq!(config.server.bind_address.source, ValueSource::Default);
}

#[test]
fn defaults_of_the_other_knobs() {
    let arguments = matches(&["--allowed-root", "a=/a", "--jwt-jwks-path", "/jwks"]);
    let config = resolve(&arguments, &toml::Table::new()).unwrap();
    assert_eq!(config.config_file.value, None);
    assert_eq!(config.server.bind_address.value, IpAddr::V4([127, 0, 0, 1]));
    assert_eq!(config.server.port.value, 8080);
    assert_eq!(config.server.public_base_url.value, None);
    assert_eq!(config.auth.jwt.username_claim.value, "sub");
    assert_eq!(config.auth.jwt.issuer.value, None);
    assert_eq!(config.auth.jwt.remote_key_refresh_interval.value.secs, 300);
    assert!(!config.auth.jwt.require_issuer.value);
    assert!(!config.auth.jwt.require_audience.value);
    assert!(!config.streaming.allow_path_follow.value);
    assert!(!config.filesystem.read_only.value);
    assert_eq!(config.filesystem.default_file_mode.value, FileMode(0o644));
    assert_eq!(config.filesystem.default_dir_mode.value, FileMode(0o755));
    assert_eq!(config.filesystem.umask.value, None);
    assert_eq!(config.filesystem.symlink_policy.value, SymlinkPolicy::Reject);
    assert!(!config.filesystem.allow_mount_crossing.value);
    assert!(!config.operations.allow_recursive_delete.value);
    assert!(!config.operations.allow_recursive_copy.value);
    assert!(!config.operations.allow_chmod.value);
    assert!(!config.operations.allow_hard_links.value);
    assert!(!config.operations.allow_symlink_create.value);
    assert_eq!(config.limits.max_request_body_size.value, ByteSize(104_857_600));
    assert_eq!(config.limits.max_read_size.value, ByteSize(104_857_600));
    assert_eq!(config.limits.max_directory_entries.value, 10_000);
    assert_eq!(config.limits.max_concurrent_requests.value, 1024);
    assert_eq!(config.limits.max_concurrent_streams.value, 128);
    assert_eq!(config.streaming.idle_timeout.value.secs, 300);
    assert_eq!(config.streaming.max_duration.value.secs, 3600);
    assert_eq!(config.streaming.heartbeat_interval.value.secs, 30);
    assert_eq!(config.pool.max_workers.value, 64);
    assert_eq!(config.pool.idle_timeout.value.secs, 300);
    assert_eq!(config.pool.request_timeout.value.secs, 30);
    assert_eq!(config.logging.level.value, LogLevel::Info);
    assert_eq!(config.logging.format.value, LogFormat::Json);
    assert!(!config.logging.redact_paths.value);
    assert!(!config.metrics.enabled.value);
    assert_eq!(config.metrics.bind_address.value, IpAddr::V4([127, 0, 0, 1]));
    assert_eq!(config.metrics.port.value, 9090);
    assert!(!config.diagnostics.config_endpoint.enabled.value);
    assert_eq!(
        config.diagnostics.config_endpoint.bind_address.value,
        SocketAddr::V4 { octets: [127, 0, 0, 1], port: 8081 }
    );
}

#[test]
fn file_sets_every_type_of_knob() {
    let arguments = matches(&[]);
    let file = table(
        r#"
[server]
bind_address = "10.0.0.1"
public_base_url = "https://Files.example/"
[auth.jwt]
jwks_url = "https://idp.example/jwks"
issuer = "idp"
require_issuer = true
remote_key_refresh_interval = "1h 30min"
[filesystem]
allowed_roots = ["a = /a ", "b=/b"]
default_file_mode = "0600"
umask = "022"
symlink_policy = "follow_safe"
[limits]
max_request_body_size = 4096
max_read_size = "1 KiB"
max_directory_entries = 7
[worker_pool]
max_workers = 3
request_timeout = "250ms"
[logging]
level = "debug"
format = { pretty = {} }
redact_paths = true
[metrics]
port = 65535
[diagnostics.config_endpoint]
enabled = true
bind_address = "10.0.0.2:99"
"#,
    );
    let config = resolve(&arguments, &file).unwrap();
    assert_eq!(config.server.bind_address.value, IpAddr::V4([10, 0, 0, 1]));
    assert_eq!(config.server.public_base_url.value.unwrap().text, "https://files.example/");
    match config.auth.jwt.source {
        JwtSource::JwksUrl(value) => {
            assert_eq!(value.value.text, "https://idp.example/jwks");
            assert!(value.sensitive);
            assert_eq!(value.toml, Some("auth.jwt.jwks_url"));
        }
        other => panic!("unexpected {:?}", other),
    }
    assert_eq!(config.auth.jwt.issuer.value.as_deref(), Some("idp"));
    assert!(config.auth.jwt.require_issuer.value);
    assert_eq!(config.auth.jwt.require_issuer.source, ValueSource::ConfigFile);
    assert_eq!(config.auth.jwt.remote_key_refresh_interval.value.secs, 5400);
    assert_eq!(config.filesystem.allowed_roots.value[0].id, "a");
    assert_eq!(config.filesystem.allowed_roots.value[0].path, FsPath::new("/a"));
    assert_eq!(config.filesystem.default_file_mode.value, FileMode(0o600));
    assert_eq!(config.filesystem.umask.value, Some(FileMode(0o22)));
    assert_eq!(config.filesystem.symlink_policy.value, SymlinkPolicy::FollowSafe);
    assert_eq!(config.limits.max_request_body_size.value, ByteSize(4096));
    assert_eq!(config.limits.max_read_size.value, ByteSize(1024));
    assert_eq!(config.limits.max_directory_entries.value, 7);
    assert_eq!(config.pool.max_workers.value, 3);
    assert_eq!(config.pool.request_timeout.value, Duration { secs: 0, nanos: 250_000_000 });
    assert_eq!(config.logging.level.value, LogLevel::Debug);
    assert_eq!(config.logging.format.value, LogFormat::Pretty);
    assert!(config.logging.redact_paths.value);
    assert_eq!(config.metrics.port.value, 65535);
    assert!(config.diagnostics.config_endpoint.enabled.value);
    assert_eq!(
        config.diagnostics.config_endpoint.bind_address.value,
        SocketAddr::V4 { octets: [10, 0, 0, 2], port: 99 }
    );
}

fn refused(file: &str) -> ConfigError {
    let arguments = matches(&["--allowed-root", "a=/a", "--jwt-jwks-path", "/jwks"]);
    resolve(&arguments, &table(file)).unwrap_err()
}

#[test]
fn file_values_that_do_not_fit() {
    assert_eq!(refused("server.port = 65536"), ConfigError::FileValue { key: "server.port" });
    assert_eq!(refused("server.port = -1"), ConfigError::FileValue { key: "server.port" });
    assert_eq!(refused("server.port = \"80\""), ConfigError::FileValue { key: "server.port" });
    assert_eq!(refused("tls.enabled = 1"), ConfigError::FileValue { key: "tls.enabled" });
    assert_eq!(
        refused("server.bind_address = \"nowhere\""),
        ConfigError::FileValue { key: "server.bind_address" }
    );
    assert_eq!(
        refused("server.public_base_url = \"nowhere\""),
        ConfigError::FileValue { key: "server.public_base_url" }
    );
    assert_eq!(
        refused("limits.max_read_size = -5"),
        ConfigError::FileValue { key: "limits.max_read_size" }
    );
    assert_eq!(refused("logging.level = \"loud\""), ConfigError::FileValue { key: "logging.level" });
    assert_eq!(
        refused("logging.level = { debug = 1 }"),
        ConfigError::FileValue { key: "logging.level" }
    );
    assert_eq!(
        refused("logging.format = { json = {}, pretty = {} }"),
        ConfigError::FileValue { key: "logging.format" }
    );
    assert_eq!(
        refused("cors.allowed_origins = [\"a\", 1]"),
        ConfigError::FileValue { key: "cors.allowed_origins" }
    );
    assert_eq!(
        refused("cors.allowed_origins = \"a\""),
        ConfigError::FileValue { key: "cors.allowed_origins" }
    );
    let error = refused("streaming.idle_timeout = \"soon\"");
    assert_eq!(error, ConfigError::FileValue { key: "streaming.idle_timeout" });
    assert_eq!(
        error.message(),
        "failed to convert file configuration value for key \"streaming.idle_timeout\""
    );
}

#[test]
fn first_flaw_is_reported() {
    assert_eq!(
        refused("server.port = -1\nserver.bind_address = 5"),
        ConfigError::FileValue { key: "server.bind_address" }
    );
    assert_eq!(
        refused("metrics.port = -1\nlogging.level = 5"),
        ConfigError::FileValue { key: "logging.level" }
    );
}

#[test]
fn argument_decides_though_the_file_does_not_fit() {
    let arguments =
        matches(&["--port", "1", "--allowed-root", "a=/a", "--jwt-jwks-path", "/jwks"]);
    let config = resolve(&arguments, &table("server.port = \"x\"")).unwrap();
    assert_eq!(config.server.port.value, 1);
    assert_eq!(config.server.port.source, ValueSource::Argument);
}

#[test]
fn section_that_is_no_table() {
    let arguments = matches(&["--allowed-root", "a=/a", "--jwt-jwks-path", "/jwks"]);
    let config = resolve(&arguments, &table("server = 5")).unwrap();
    assert_eq!(config.server.port.source, ValueSource::Default);
}

#[test]
fn argument_with_a_value_of_another_type() {
    let arguments = Command::new("test")
        .no_binary_name(true)
        .arg(Arg::new("server.port").long("port"))
        .try_get_matches_from(["--port", "80"])
        .unwrap();
    let error = get_one::<u16>(&arguments, "server.port").unwrap_err();
    assert_eq!(error, ConfigError::ArgumentLookup { id: "server.port" });
    assert_eq!(
        error.message(),
        "failed to convert configuration argument configuration value for id \"server.port\""
    );
    let said = arguments.try_get_many::<Setting>("server.port").err().unwrap().to_string();
    assert!(said.starts_with("Could not downcast to "));
    let error = get_many::<String>(&arguments, "server.port").unwrap_err();
    assert_eq!(error.message(), said);
    assert_eq!(error, ConfigError::ArgumentList { text: said });
}

#[test]
fn argument_with_a_setting_of_another_kind() {
    let arguments = Command::new("test")
        .no_binary_name(true)
        .arg(
            Arg::new("server.port")
                .long("port")
                .value_parser(|text: &str| Ok::<_, String>(Setting::Text(text.to_owned()))),
        )
        .try_get_matches_from(["--port", "80"])
        .unwrap();
    assert_eq!(
        get_one::<u16>(&arguments, "server.port"),
        Err(ConfigError::ArgumentLookup { id: "server.port" })
    );
    assert_eq!(
        get_one::<FileMode>(&arguments, "server.port"),
        Err(ConfigError::ArgumentLookup { id: "server.port" })
    );
    let numbers = Command::new("test")
        .no_binary_name(true)
        .arg(
            Arg::new("cors.allowed_origins")
                .long("origin")
                .value_parser(|text: &str| text.parse().map(Setting::Port)),
        )
        .try_get_matches_from(["--origin", "80"])
        .unwrap();
    assert_eq!(
        get_many::<String>(&numbers, "cors.allowed_origins"),
        Err(ConfigError::ArgumentItem { id: "cors.allowed_origins" })
    );
    assert_eq!(
        get_one::<String>(&arguments, "server.port"),
        Ok(Some(("80".to_owned(), ValueSource::Argument)))
    );
}

#[test]
fn argument_that_the_command_does_not_have() {
    let arguments = Command::new("test")
        .no_binary_name(true)
        .try_get_matches_from(Vec::<String>::new())
        .unwrap();
    match arguments.try_get_one::<Setting>("server.port") {
        Ok(_) => {
            assert_eq!(get_one::<u16>(&arguments, "server.port"), Ok(None));
            assert_eq!(get_many::<Root>(&arguments, "filesystem.allowed_roots"), Ok(None));
        }
        Err(refusal) => {
            assert_eq!(
                get_one::<u16>(&arguments, "server.port"),
                Err(ConfigError::ArgumentLookup { id: "server.port" })
            );
            assert_eq!(
                get_many::<Root>(&arguments, "filesystem.allowed_roots"),
                Err(ConfigError::ArgumentList { text: refusal.to_string() })
            );
        }
    }
}

#[test]
fn sources_of_arguments() {
    let arguments = Command::new("test")
        .no_binary_name(true)
        .arg(
            Arg::new("x")
                .long("x")
                .default_value("1")
                .value_parser(|text: &str| text.parse().map(Setting::Port)),
        )
        .try_get_matches_from(Vec::<String>::new())
        .unwrap();
    assert_eq!(arguments.value_source("x"), Some(ClapSource::DefaultValue));
    assert_eq!(get_one::<u16>(&arguments, "x"), Ok(Some((1, ValueSource::Default))));
    assert_eq!(Origin::EnvVariable.source(), ValueSource::Environment);
    assert_eq!(Origin::CommandLine.source(), ValueSource::Argument);
    assert_eq!(Origin::Other.source(), ValueSource::Default);
}

#[test]
fn repeated_arguments_keep_their_order() {
    let arguments = matches(&["--allowed-root", "b=/b", "--allowed-root", "a=/a"]);
    let (roots, source) =
        get_many::<Root>(&arguments, "filesystem.allowed_roots").unwrap().unwrap();
    assert_eq!(roots[0].id, "b");
    assert_eq!(roots[1].id, "a");
    assert_eq!(source, ValueSource::Argument);
}

#[test]
fn argument_without_an_origin_is_reported() {
    assert_eq!(
        ConfigError::ArgumentSource { id: "x" }.message(),
        "logic error: argument \"x\" has a value but no source"
    );
}

#[test]
fn values_in_the_file_are_found_by_dotted_keys() {
    let file = table("a.b.c = 7\nwhen = 2024-01-02\n\"x.y\" = 1");
    assert_eq!(
        get_from_file_config::<u16>(&file, "a.b.c"),
        Ok(Some((7, ValueSource::ConfigFile)))
    );
    assert_eq!(get_from_file_config::<u16>(&file, "a.b"), Err(ConfigError::FileValue { key: "a.b" }));
    assert_eq!(get_from_file_config::<u16>(&file, "a.b.c.d"), Ok(None));
    assert_eq!(get_from_file_config::<u16>(&file, "x.y"), Ok(None));
    let text = |text: &str| if text.is_empty() { None } else { Some(text.to_owned()) };
    assert_eq!(parse_under(&file, "when", &text), FileLookup::Found("2024-01-02".to_owned()));
    assert_eq!(parse_under(&file, "a.b.c", &text), FileLookup::Mismatch);
    assert_eq!(parse_under(&file, "a.x", &text), FileLookup::Absent);
    assert_eq!(parse_under(&table("a = ''"), "a", &text), FileLookup::Mismatch);
}

fn named_file() -> ArgMatches {
    matches(&["--config-file", "/etc/netixfs.toml"])
}

#[test]
fn loading_a_file() {
    let arguments = named_file();
    let file = config_file(&arguments).unwrap();
    assert_eq!(file.value, path("/etc/netixfs.toml"));
    assert_eq!(file.source, ValueSource::Argument);
    assert_eq!(file.toml, None);
    let config = load(&arguments, file, Some(FILE.to_owned()), shown, ip, socket).unwrap();
    assert_eq!(config.server.port.value, 9000);
    assert_eq!(config.server.bind_address.source, ValueSource::ConfigFile);
    assert_eq!(config.config_file.value, path("/etc/netixfs.toml"));
}

#[test]
fn loading_without_a_file() {
    let arguments = matches(&["--allowed-root", "a=/a", "--jwt-jwks-path", "/jwks"]);
    let file = config_file(&arguments).unwrap();
    let config = load(&arguments, file, None, shown, ip, socket).unwrap();
    assert_eq!(config.server.port.value, 8080);
}

fn failed(content: Option<&str>) -> LoadError {
    let arguments = named_file();
    let file = config_file(&arguments).unwrap();
    load(&arguments, file, content.map(str::to_owned), shown, ip, socket).unwrap_err()
}

#[test]
fn files_that_cannot_be_loaded() {
    let error = failed(None);
    assert_eq!(error, LoadError::Unreadable { shown: "\"/etc/netixfs.toml\"".to_owned() });
    assert_eq!(error.message(), "failed to read config file \"/etc/netixfs.toml\"");
    let error = failed(Some("a = "));
    assert_eq!(error, LoadError::Malformed { shown: "\"/etc/netixfs.toml\"".to_owned() });
    assert_eq!(error.message(), "failed to parse config file \"/etc/netixfs.toml\"");
    let error = failed(Some(""));
    assert_eq!(error, LoadError::Invalid(ConfigError::JwtMissing));
    assert_eq!(error.message(), ConfigError::JwtMissing.message());
    assert_eq!(
        failed(Some("metrics.bind_address = \"x\"\n[auth.jwt]\njwks_path = \"/j\"\n\
                     [filesystem]\nallowed_roots = [\"a=/a\"]")),
        LoadError::Invalid(ConfigError::FileValue { key: "metrics.bind_address" })
    );
}

/// Arguments as they are when an environment variable is set.
fn with_variable(spec: ArgSpec, name: &'static str) -> ArgMatches {
    Command::new("test")
        .no_binary_name(true)
        .arg(argument(&ArgSpec { environment: name, ..spec }))
        .try_get_matches_from(Vec::<String>::new())
        .unwrap()
}

#[test]
fn lists_in_environment_variables() {
    // Every process has a variable `PATH`.
    let arguments = with_variable(parameters::cors_allowed_origins().to_arg(), "PATH");
    let (values, source) =
        get_many::<String>(&arguments, "cors.allowed_origins").unwrap().unwrap();
    assert_eq!(source, ValueSource::Environment);
    assert_eq!(arguments.value_source("cors.allowed_origins"), Some(ClapSource::EnvVariable));
    let whole = match arguments.get_one::<Setting>("cors.allowed_origins") {
        Some(Setting::Text(text)) => text.clone(),
        other => panic!("unexpected {:?}", other),
    };
    assert_eq!(values, whole.split(',').collect::<Vec<_>>());
}

#[test]
fn lists_on_the_command_line() {
    let arguments = matches(&["--allowed-root", "a=/x,b=/y"]);
    let (roots, source) =
        get_many::<Root>(&arguments, "filesystem.allowed_roots").unwrap().unwrap();
    assert_eq!(roots, [Root { id: "a".into(), path: FsPath::new("/x,b=/y") }]);
    assert_eq!(source, ValueSource::Argument);
    let arguments = Command::new("test")
        .no_binary_name(true)
        .arg(
            Arg::new("filesystem.allowed_roots")
                .long("allowed-root")
                .value_parser(|text: &str| Ok::<_, String>(Setting::Text(text.to_owned()))),
        )
        .try_get_matches_from(["--allowed-root", "a"])
        .unwrap();
    let error = get_many::<Root>(&arguments, "filesystem.allowed_roots").unwrap_err();
    assert_eq!(error, ConfigError::ArgumentItem { id: "filesystem.allowed_roots" });
    assert_eq!(
        error.message(),
        "invalid item in the list for id \"filesystem.allowed_roots\""
    );
}

#[test]
fn secrets_are_sensitive() {
    assert!(parameters::tls_key_path().sensitive);
    assert!(parameters::auth_jwt_public_key_url().sensitive);
    assert!(parameters::auth_jwt_jwks_url().sensitive);
    assert!(!parameters::tls_cert_path().sensitive);
}

#[test]
fn names_of_the_arguments() {
    let specs = parameters::arguments();
    assert_eq!(specs.len(), 57);
    for long in ["jwt-require-issuer", "jwt-require-audience", "stream-allow-path-follow"] {
        assert!(specs.iter().any(|spec| spec.long == long && spec.kind == Kind::Flag));
    }
    assert_eq!(specs[2].id, "server.port");
    assert_eq!(specs[2].long, "port");
    assert_eq!(specs[2].environment, "NETIXFS_SERVER_PORT");
    assert!(!specs[2].required);
    assert_eq!(specs[2].kind, Kind::Port);
    assert_eq!(specs[2].action, Action::Single);
    for (at, spec) in specs.iter().enumerate() {
        assert_eq!(
            spec.environment,
            format!("NETIXFS_{}", spec.id.to_uppercase().replace('.', "_"))
        );
        for other in &specs[at + 1..] {
            assert_ne!(spec.id, other.id);
            assert_ne!(spec.long, other.long);
            assert_ne!(spec.environment, other.environment);
        }
    }
    command().debug_assert();
}
