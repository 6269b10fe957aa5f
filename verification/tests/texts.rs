use netixfs::duration::{Duration, HumanDuration, InvalidDuration};
use netixfs::scalars::{ByteSize, Method, Url};
use netixfs::text::{is_white_space, same_text, split, split_once, strip_leading_dashes, trim};

#[test]
fn white_space_is_that_of_unicode() {
    for c in '\0'..=char::MAX {
        assert_eq!(is_white_space(c), c.is_whitespace());
    }
}

#[test]
fn trimming() {
    for text in ["", " ", "a", " a ", "\u{a0}a b\t\n", "\u{3000}", "a\u{200b} "] {
        assert_eq!(trim(text), text.trim());
    }
}

#[test]
fn splitting() {
    for text in ["", "=", "a=b", "a=b=c", "ab", "=b", "a=", "\u{e4}=\u{f6}"] {
        assert_eq!(split_once(text, '='), text.split_once('='));
        assert_eq!(split(text, '='), text.split('=').collect::<Vec<_>>());
    }
}

#[test]
fn stripping_dashes() {
    for text in ["", "--", "--port", "-p", "a-b", "---x-"] {
        assert_eq!(strip_leading_dashes(text), text.trim_start_matches('-'));
    }
    assert!(same_text("a", "a"));
    assert!(!same_text("a", "b"));
}

fn span(text: &str) -> Option<(u64, u32)> {
    text.parse::<HumanDuration>().ok().map(|span| (span.0.secs, span.0.nanos))
}

#[test]
fn spans_of_time() {
    assert_eq!(span("30s"), Some((30, 0)));
    assert_eq!(span("5m"), Some((300, 0)));
    assert_eq!(span("1h"), Some((3600, 0)));
    assert_eq!(span("1h 30min"), Some((5400, 0)));
    assert_eq!(span("250ms"), Some((0, 250_000_000)));
    assert_eq!(span("1.5h"), Some((5400, 0)));
    assert_eq!(span("2days 4us"), Some((172_800, 4000)));
    assert_eq!(span("1000000000000ns"), Some((1000, 0)));
    assert_eq!(span("8000000000000ms"), Some((8_000_000_000, 0)));
    assert_eq!(span("9000000000000millis"), Some((9_000_000_000, 0)));
    assert_eq!(span("0.250000000000000h"), Some((900, 0)));
    assert_eq!(span("18446744073709551615s"), Some((u64::MAX, 0)));
    assert_eq!(span("1000000000000m"), Some((60_000_000_000_000, 0)));
    assert_eq!(span("5000000000000000h"), Some((18_000_000_000_000_000_000, 0)));
    assert_eq!(span("213503982334601d 25215s"), Some((u64::MAX, 0)));
    assert_eq!(span("7000000000000months"), Some((18_410_112_000_000_000_000, 0)));
    assert_eq!(span("7000000000000M"), Some((18_410_112_000_000_000_000, 0)));
    assert_eq!(span("30000000000000weeks"), Some((18_144_000_000_000_000_000, 0)));
    assert_eq!(span("584542046090.5y"), Some((18_446_744_073_705_562_800, 0)));
    assert_eq!(
        span("18446744072000000000ns 18446744073000000000ns 1.5us"),
        Some((36_893_488_145, 1500))
    );
    assert_eq!(span("0"), Some((0, 0)));
    assert_eq!(span("1000000000 years"), Some((31_557_600_000_000_000, 0)));
    for text in [
        "",
        "5",
        "s",
        "5 parsecs",
        "-5s",
        "18446744073709551616s",
        "1.s",
        "584542046091y",
        "0.12345678901234567890h",
        "213503982334602d",
    ] {
        assert_eq!(text.parse::<HumanDuration>(), Err(InvalidDuration));
    }
    assert_eq!("18446744073709551615s 1000000000ns".parse::<HumanDuration>(), Err(InvalidDuration));
    let duration = Duration { secs: 1, nanos: 2 };
    assert_eq!(Duration::from(HumanDuration::from(duration)), duration);
}

#[test]
fn sizes() {
    assert_eq!(ByteSize::parse("100 MiB"), Some(ByteSize(104_857_600)));
    assert_eq!(ByteSize::parse("1kB"), Some(ByteSize(1000)));
    assert_eq!(ByteSize::parse("17"), Some(ByteSize(17)));
    assert_eq!(ByteSize::parse("many"), None);
}

#[test]
fn urls() {
    assert_eq!(Url::parse("HTTPS://Example.com").unwrap().text, "https://example.com/");
    assert_eq!(Url::parse("/relative"), None);
    assert_eq!(Url::parse(""), None);
}

#[test]
fn methods() {
    for text in ["GET", "get", "M-SEARCH", "A'B", "A~"] {
        assert_eq!(Method::parse(text).unwrap().name, text);
    }
    for text in ["", "A B", "A(", "A,", "\u{e4}", "A\"", "A{"] {
        assert_eq!(Method::parse(text), None);
    }
    for byte in 0u8..=255 {
        let text = char::from(byte).to_string();
        assert_eq!(Method::parse(&text).is_some(), text.parse::<axum::http::Method>().is_ok());
    }
}
