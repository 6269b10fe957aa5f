use netixfs::choices::{LogFormat, LogLevel, SymlinkPolicy};
use netixfs::mode::{FileMode, InvalidMode};
use netixfs::path::FsPath;
use netixfs::root::{InvalidRoot, Root};
use netixfs::value::{serialize_value, FieldValue, Value, ValueSource};

#[test]
fn test_root_from_str_valid() {
    let root: Root = "myroot=/path/to/root".parse().unwrap();
    assert_eq!(root.id, "myroot");
    assert_eq!(root.path, FsPath::new("/path/to/root"));

    // Whitespace handling
    let root: Root = "  myroot  =  /path/to/root  ".parse().unwrap();
    assert_eq!(root.id, "myroot");
    assert_eq!(root.path, FsPath::new("/path/to/root"));

    // No spaces
    let root: Root = "root=/path".parse().unwrap();
    assert_eq!(root.id, "root");
    assert_eq!(root.path, FsPath::new("/path"));
}

#[test]
fn test_root_from_str_missing_separator() {
    let result: Result<Root, InvalidRoot> = "myroot/path/to/root".parse();
    assert!(result.is_err());
    assert_eq!(
        result.unwrap_err().message(),
        "invalid root \"myroot/path/to/root\": expected \"id=path\" format"
    );
}

#[test]
fn test_root_from_str_empty_id() {
    let result: Result<Root, InvalidRoot> = "=/path/to/root".parse();
    assert!(result.is_err());
    assert!(result.unwrap_err().message().contains("root id must not be empty"));
}

#[test]
fn test_root_from_str_empty_path() {
    let result: Result<Root, InvalidRoot> = "myroot=".parse();
    assert!(result.is_err());
    assert!(result.unwrap_err().message().contains("root path must not be empty"));
}

#[test]
fn root_with_more_separators() {
    let root: Root = "a=b=c".parse().unwrap();
    assert_eq!(root.id, "a");
    assert_eq!(root.path, FsPath::new("b=c"));
    let error = " = ".parse::<Root>().unwrap_err();
    assert_eq!(error.message(), "root id must not be empty in \" = \"");
    let error = "a\u{2003}=\t".parse::<Root>().unwrap_err();
    assert_eq!(error.message(), format!("root path must not be empty in {:?}", "a\u{2003}=\t"));
}

#[test]
fn test_file_mode_from_str_octal_formats() {
    // Standard octal with leading zero
    let mode: FileMode = "0644".parse().unwrap();
    assert_eq!(mode.value(), 0o644);

    // Octal without leading zero
    let mode: FileMode = "644".parse().unwrap();
    assert_eq!(mode.value(), 0o644);

    // Rust-style octal prefix
    let mode: FileMode = "0o644".parse().unwrap();
    assert_eq!(mode.value(), 0o644);

    // With leading whitespace
    let mode: FileMode = "  0644  ".parse().unwrap();
    assert_eq!(mode.value(), 0o644);

    // Directory mode
    let mode: FileMode = "0755".parse().unwrap();
    assert_eq!(mode.value(), 0o755);

    // All permissions
    let mode: FileMode = "0777".parse().unwrap();
    assert_eq!(mode.value(), 0o777);
}

#[test]
fn test_file_mode_from_str_invalid() {
    // Invalid characters
    let result: Result<FileMode, InvalidMode> = "6x4".parse();
    assert!(result.is_err());

    // Decimal number
    let result: Result<FileMode, InvalidMode> = "644".parse();
    // Note: This actually succeeds because "644" is valid octal
    assert!(result.is_ok());

    // Empty string
    let result: Result<FileMode, InvalidMode> = "".parse();
    assert!(result.is_err());

    // Negative number
    let result: Result<FileMode, InvalidMode> = "-644".parse();
    assert!(result.is_err());
}

#[test]
fn test_file_mode_display() {
    let mode = FileMode(0o644);
    assert_eq!(mode.to_octal(), "644");

    let mode = FileMode(0o755);
    assert_eq!(mode.to_octal(), "755");
}

#[test]
fn file_mode_edges() {
    for text in ["+644", "0o+644", "37777777777", "0000000000000644", "0"] {
        let digits = text.strip_prefix("0o").unwrap_or(text);
        assert_eq!(
            text.parse::<FileMode>().unwrap().value(),
            u32::from_str_radix(digits, 8).unwrap()
        );
    }
    for text in ["40000000000", "8", "0o", "+", "0o0o7", "6 4", "++1", "0O7"] {
        assert!(text.parse::<FileMode>().is_err());
    }
    assert_eq!(
        " 6x4 ".parse::<FileMode>().unwrap_err().message(),
        "invalid Unix mode \"6x4\": expected octal e.g. \"0644\""
    );
    for number in [0, 7, 8, 0o644, 0o7777, u32::MAX] {
        assert_eq!(FileMode(number).to_octal(), format!("{:o}", number));
        assert_eq!(FileMode(number).to_octal().parse(), Ok(FileMode(number)));
    }
    assert_eq!(FileMode::default().value(), 0);
    assert!(FileMode(0o644) < FileMode(0o755));
    assert!(FileMode(0o755) > FileMode(0o644));
    assert!(FileMode(0o644) == FileMode(0o644) && FileMode(0o644) != FileMode(0o600));
    assert_eq!(FileMode(1).partial_cmp(&FileMode(2)), Some(FileMode(1).cmp(&FileMode(2))));
}

#[test]
fn test_log_level_serialization() {
    for (level, word) in [
        (LogLevel::Error, "\"error\""),
        (LogLevel::Warn, "\"warn\""),
        (LogLevel::Info, "\"info\""),
        (LogLevel::Debug, "\"debug\""),
        (LogLevel::Trace, "\"trace\""),
    ] {
        let serialized = serde_json::to_string(level.as_str()).unwrap();
        assert_eq!(serialized, word);
        assert_eq!(LogLevel::from_argument(level.as_str()), Some(level));
    }
    assert_eq!(LogLevel::from_argument("Error"), None);
}

#[test]
fn test_log_format_serialization() {
    for (format, word) in [
        (LogFormat::Json, "\"json\""),
        (LogFormat::Pretty, "\"pretty\""),
        (LogFormat::Compact, "\"compact\""),
    ] {
        let serialized = serde_json::to_string(format.as_str()).unwrap();
        assert_eq!(serialized, word);
        assert_eq!(LogFormat::from_argument(format.as_str()), Some(format));
    }
    assert_eq!(LogFormat::from_argument(""), None);
}

#[test]
fn test_symlink_policy_serialization() {
    let policy = SymlinkPolicy::Reject;
    let serialized = serde_json::to_string(policy.as_str()).unwrap();
    assert_eq!(serialized, "\"reject\"");

    let policy = SymlinkPolicy::FollowSafe;
    let serialized = serde_json::to_string(policy.as_str()).unwrap();
    assert_eq!(serialized, "\"follow_safe\"");
}

#[test]
fn symlink_policy_on_the_command_line() {
    assert_eq!(SymlinkPolicy::from_argument("reject"), Some(SymlinkPolicy::Reject));
    assert_eq!(SymlinkPolicy::from_argument("follow-safe"), Some(SymlinkPolicy::FollowSafe));
    assert_eq!(SymlinkPolicy::from_argument("follow_safe"), None);
    assert_eq!(SymlinkPolicy::FollowSafe.argument_word(), "follow-safe");
}

fn test_value<T>(value: T) -> Value<T> {
    Value {
        value,
        source: ValueSource::Default,
        id: "test",
        toml: None,
        argument: "--test",
        environment: "TEST",
        sensitive: false,
    }
}

#[test]
fn test_value_map() {
    let value = test_value(42u32);

    let mapped = value.map(|v| v * 2);
    assert_eq!(mapped.value, 84);
    assert_eq!(mapped.source, ValueSource::Default);
    assert_eq!(mapped.id, "test");
}

#[test]
fn test_value_try_map() {
    let value = test_value("42".to_string());

    let mapped: Result<Value<u32>, _> = value.try_map(|v| v.parse::<u32>());
    assert!(mapped.is_ok());
    assert_eq!(mapped.unwrap().value, 42);

    let value = test_value("not_a_number".to_string());

    let mapped: Result<Value<u32>, _> = value.try_map(|v| v.parse::<u32>());
    assert!(mapped.is_err());
}

#[test]
fn test_value_option_transpose() {
    let value: Value<Option<u32>> = test_value(Some(42));

    let transposed = value.transpose();
    assert!(transposed.is_some());
    assert_eq!(transposed.unwrap().value, 42);

    let value: Value<Option<u32>> = test_value(None);

    let transposed = value.transpose();
    assert!(transposed.is_none());
}

fn serialized(value: &Value<String>) -> serde_json::Value {
    let mut object = serde_json::Map::new();
    for field in serialize_value(value, value.value.as_str()) {
        let shown = match field.value {
            FieldValue::Inner(text) => serde_json::Value::from(text),
            FieldValue::Text(text) => serde_json::Value::from(text),
            FieldValue::Nothing => serde_json::Value::Null,
        };
        object.insert(field.name.to_owned(), shown);
    }
    serde_json::Value::Object(object)
}

#[test]
fn test_value_serialize_non_sensitive() {
    let value = Value {
        value: "test_value".to_string(),
        source: ValueSource::Argument,
        id: "test.id",
        toml: Some("test_id"),
        argument: "--test-id",
        environment: "TEST_ID",
        sensitive: false,
    };

    let serialized = serialized(&value);
    assert_eq!(serialized["value"], "test_value");
    assert_eq!(serialized["source"], "argument");
    assert_eq!(serialized["toml"], "test_id");
    assert_eq!(serialized["argument"], "--test-id");
    assert_eq!(serialized["environment"], "TEST_ID");
}

#[test]
fn test_value_serialize_sensitive() {
    let value = Value {
        value: "secret_password".to_string(),
        source: ValueSource::Environment,
        id: "secret",
        toml: Some("secret"),
        argument: "--secret",
        environment: "SECRET",
        sensitive: true,
    };

    let serialized = serialized(&value);
    assert_eq!(serialized["value"], "** redacted **");
    assert_eq!(serialized["source"], "environment");
    assert!(!serialized.to_string().contains("secret_password"));
}

#[test]
fn value_without_a_key_in_the_file() {
    let mut value = test_value("x".to_owned());
    value.source = ValueSource::ConfigFile;
    let serialized = serialized(&value);
    assert_eq!(serialized["toml"], serde_json::Value::Null);
    assert_eq!(serialized["source"], "config_file");
    value.source = ValueSource::Default;
    assert_eq!(value.source.as_str(), "default");
}

#[test]
fn sources_take_precedence_in_order() {
    let order = [
        ValueSource::Default,
        ValueSource::ConfigFile,
        ValueSource::Environment,
        ValueSource::Argument,
    ];
    for left in order {
        for right in order {
            assert_eq!(left.outranks(right), left > right);
        }
    }
    assert_eq!(ValueSource::Default.in_description(), "default");
    assert_eq!(ValueSource::ConfigFile.in_description(), "configuration file");
    assert_eq!(ValueSource::Environment.in_description(), "environment");
    assert_eq!(ValueSource::Argument.in_description(), "command line arguments");
}
