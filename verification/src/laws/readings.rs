//! Settings are read as they were written, on the command line and in the configuration file.
use crate::choices::{LogFormat, LogLevel, SymlinkPolicy};
use crate::duration::{countable, parsed_duration, Duration, HumanDuration};
use crate::file::{selects, tree_of, Tree};
use crate::mode::{mode_of, FileMode};
use crate::path::FsPath;
use crate::root::{root_of, Root};
use crate::scalars::{parsed_byte_size, parsed_url, ByteSize, IpAddr, Method, SocketAddr, Url};
use crate::setting::{ArgumentValue, FileValue, ListItem, Setting, SettingView};
use toml::Value as TomlValue;
use vstd::prelude::*;
use vstd::utf8::encode_utf8;

verus! {

/// What a value stands for is what it holds.
pub proof fn law_values_stand_for_what_they_hold(
    path: FsPath,
    url: Url,
    method: Method,
    root: Root,
    size: ByteSize,
    span: HumanDuration,
    duration: Duration,
    mode: FileMode,
)
    ensures
        path@ == path.bytes@ && path.deep_view() == path.bytes@,
        url@ == url.text@ && url.deep_view() == url.text@,
        method@ == method.name@ && method.deep_view() == method.name@,
        root@.id == root.id@ && root@.path == root.path.bytes@ && root.deep_view() == root@,
        size.deep_view() == size,
        span.deep_view() == span,
        duration.deep_view() == duration,
        mode.deep_view() == mode,
{
}

/// What a choice or an address stands for is what it holds.
pub proof fn law_choices_stand_for_what_they_hold(
    level: LogLevel,
    format: LogFormat,
    policy: SymlinkPolicy,
    ip: IpAddr,
    socket: SocketAddr,
)
    ensures
        level.deep_view() == level,
        format.deep_view() == format,
        policy.deep_view() == policy,
        ip.deep_view() == ip,
        socket.deep_view() == socket,
{
}

/// A setting holds what was put into it.
pub proof fn law_setting_holds_what_was_put_into_it(
    flag: bool,
    port: u16,
    count: u32,
    text: String,
    path: FsPath,
    url: Url,
    size: ByteSize,
    span: HumanDuration,
    mode: FileMode,
)
    ensures
        Setting::Flag(flag)@ == SettingView::Flag(flag),
        Setting::Port(port)@ == SettingView::Port(port),
        Setting::Count(count)@ == SettingView::Count(count),
        Setting::Text(text)@ == SettingView::Text(text@),
        Setting::Path(path)@ == SettingView::Path(path.bytes@),
        Setting::Url(url)@ == SettingView::Url(url.text@),
        Setting::Size(size)@ == SettingView::Size(size),
        Setting::Span(span)@ == SettingView::Span(span),
        Setting::Mode(mode)@ == SettingView::Mode(mode),
{
}

/// A setting that is a choice or an address holds what was put into it.
pub proof fn law_choice_holds_what_was_put_into_it(
    level: LogLevel,
    format: LogFormat,
    policy: SymlinkPolicy,
    ip: IpAddr,
    socket: SocketAddr,
)
    ensures
        Setting::Level(level)@ == SettingView::Level(level),
        Setting::Format(format)@ == SettingView::Format(format),
        Setting::Symlinks(policy)@ == SettingView::Symlinks(policy),
        Setting::Ip(ip)@ == SettingView::Ip(ip),
        Setting::Socket(socket)@ == SettingView::Socket(socket),
{
}

/// A flag is taken from a setting that holds one, as it is, and from no other.
pub proof fn law_flag_is_taken_as_it_is(setting: Setting, taken: Option<bool>)
    requires
        call_ensures(<bool as ArgumentValue>::from_setting, (setting,), taken),
    ensures
        taken is Some <==> setting is Flag,
        taken matches Some(taken) ==> taken == setting->Flag_0,
        forall|flag: bool| #[trigger]
            <bool as ArgumentValue>::of_setting(SettingView::Flag(flag)) == Some(flag),
        forall|view: SettingView| #[trigger]
            <bool as ArgumentValue>::of_setting(view) is None <==> !(view is Flag),
{
}

/// A port is taken from a setting that holds one, as it is, and from no other.
pub proof fn law_port_is_taken_as_it_is(setting: Setting, taken: Option<u16>)
    requires
        call_ensures(<u16 as ArgumentValue>::from_setting, (setting,), taken),
    ensures
        taken is Some <==> setting is Port,
        taken matches Some(taken) ==> taken == setting->Port_0,
        forall|port: u16| #[trigger]
            <u16 as ArgumentValue>::of_setting(SettingView::Port(port)) == Some(port),
        forall|view: SettingView| #[trigger]
            <u16 as ArgumentValue>::of_setting(view) is None <==> !(view is Port),
{
}

/// A count is taken from a setting that holds one, as it is, and from no other.
pub proof fn law_count_is_taken_as_it_is(setting: Setting, taken: Option<u32>)
    requires
        call_ensures(<u32 as ArgumentValue>::from_setting, (setting,), taken),
    ensures
        taken is Some <==> setting is Count,
        taken matches Some(taken) ==> taken == setting->Count_0,
        forall|count: u32| #[trigger]
            <u32 as ArgumentValue>::of_setting(SettingView::Count(count)) == Some(count),
        forall|view: SettingView| #[trigger]
            <u32 as ArgumentValue>::of_setting(view) is None <==> !(view is Count),
{
}

/// A size is taken from a setting that holds one, as it is, and from no other.
pub proof fn law_size_is_taken_as_it_is(setting: Setting, taken: Option<ByteSize>)
    requires
        call_ensures(<ByteSize as ArgumentValue>::from_setting, (setting,), taken),
    ensures
        taken is Some <==> setting is Size,
        taken matches Some(taken) ==> taken == setting->Size_0,
        forall|size: ByteSize| #[trigger]
            <ByteSize as ArgumentValue>::of_setting(SettingView::Size(size)) == Some(size),
        forall|view: SettingView| #[trigger]
            <ByteSize as ArgumentValue>::of_setting(view) is None <==> !(view is Size),
{
}

/// A span of time is taken from a setting that holds one, as it is, and from no other.
pub proof fn law_span_is_taken_as_it_is(setting: Setting, taken: Option<HumanDuration>)
    requires
        call_ensures(<HumanDuration as ArgumentValue>::from_setting, (setting,), taken),
    ensures
        taken is Some <==> setting is Span,
        taken matches Some(taken) ==> taken == setting->Span_0,
        forall|span: HumanDuration| #[trigger]
            <HumanDuration as ArgumentValue>::of_setting(SettingView::Span(span)) == Some(span),
        forall|view: SettingView| #[trigger]
            <HumanDuration as ArgumentValue>::of_setting(view) is None <==> !(view is Span),
{
}

/// A mode is taken from a setting that holds one, as it is, and from no other.
pub proof fn law_mode_is_taken_as_it_is(setting: Setting, taken: Option<FileMode>)
    requires
        call_ensures(<FileMode as ArgumentValue>::from_setting, (setting,), taken),
    ensures
        taken is Some <==> setting is Mode,
        taken matches Some(taken) ==> taken == setting->Mode_0,
        forall|mode: FileMode| #[trigger]
            <FileMode as ArgumentValue>::of_setting(SettingView::Mode(mode)) == Some(mode),
        forall|view: SettingView| #[trigger]
            <FileMode as ArgumentValue>::of_setting(view) is None <==> !(view is Mode),
{
}

/// A level is taken from a setting that holds one, as it is, and from no other.
pub proof fn law_level_is_taken_as_it_is(setting: Setting, taken: Option<LogLevel>)
    requires
        call_ensures(<LogLevel as ArgumentValue>::from_setting, (setting,), taken),
    ensures
        taken is Some <==> setting is Level,
        taken matches Some(taken) ==> taken == setting->Level_0,
        forall|level: LogLevel| #[trigger]
            <LogLevel as ArgumentValue>::of_setting(SettingView::Level(level)) == Some(level),
        forall|view: SettingView| #[trigger]
            <LogLevel as ArgumentValue>::of_setting(view) is None <==> !(view is Level),
{
}

/// A format is taken from a setting that holds one, as it is, and from no other.
pub proof fn law_format_is_taken_as_it_is(setting: Setting, taken: Option<LogFormat>)
    requires
        call_ensures(<LogFormat as ArgumentValue>::from_setting, (setting,), taken),
    ensures
        taken is Some <==> setting is Format,
        taken matches Some(taken) ==> taken == setting->Format_0,
        forall|format: LogFormat| #[trigger]
            <LogFormat as ArgumentValue>::of_setting(SettingView::Format(format)) == Some(format),
        forall|view: SettingView| #[trigger]
            <LogFormat as ArgumentValue>::of_setting(view) is None <==> !(view is Format),
{
}

/// A policy is taken from a setting that holds one, as it is, and from no other.
pub proof fn law_symlinks_is_taken_as_it_is(setting: Setting, taken: Option<SymlinkPolicy>)
    requires
        call_ensures(<SymlinkPolicy as ArgumentValue>::from_setting, (setting,), taken),
    ensures
        taken is Some <==> setting is Symlinks,
        taken matches Some(taken) ==> taken == setting->Symlinks_0,
        forall|policy: SymlinkPolicy| #[trigger]
            <SymlinkPolicy as ArgumentValue>::of_setting(SettingView::Symlinks(policy)) == Some(policy),
        forall|view: SettingView| #[trigger]
            <SymlinkPolicy as ArgumentValue>::of_setting(view) is None <==> !(view is Symlinks),
{
}

/// An IP address is taken from a setting that holds one, as it is, and from no other.
pub proof fn law_ip_is_taken_as_it_is(setting: Setting, taken: Option<IpAddr>)
    requires
        call_ensures(<IpAddr as ArgumentValue>::from_setting, (setting,), taken),
    ensures
        taken is Some <==> setting is Ip,
        taken matches Some(taken) ==> taken == setting->Ip_0,
        forall|address: IpAddr| #[trigger]
            <IpAddr as ArgumentValue>::of_setting(SettingView::Ip(address)) == Some(address),
        forall|view: SettingView| #[trigger]
            <IpAddr as ArgumentValue>::of_setting(view) is None <==> !(view is Ip),
{
}

/// A socket address is taken from a setting that holds one, as it is, and from no other.
pub proof fn law_socket_is_taken_as_it_is(setting: Setting, taken: Option<SocketAddr>)
    requires
        call_ensures(<SocketAddr as ArgumentValue>::from_setting, (setting,), taken),
    ensures
        taken is Some <==> setting is Socket,
        taken matches Some(taken) ==> taken == setting->Socket_0,
        forall|address: SocketAddr| #[trigger]
            <SocketAddr as ArgumentValue>::of_setting(SettingView::Socket(address)) == Some(address),
        forall|view: SettingView| #[trigger]
            <SocketAddr as ArgumentValue>::of_setting(view) is None <==> !(view is Socket),
{
}

/// A text is taken from a setting that holds one, as it is, and from no other.
pub proof fn law_text_is_taken_as_it_is(setting: Setting, taken: Option<String>)
    requires
        call_ensures(<String as ArgumentValue>::from_setting, (setting,), taken),
    ensures
        taken is Some <==> setting is Text,
        taken matches Some(taken) ==> taken@ == setting->Text_0@,
        forall|text: Seq<char>| #[trigger]
            <String as ArgumentValue>::of_setting(SettingView::Text(text)) == Some(text),
        forall|view: SettingView| #[trigger]
            <String as ArgumentValue>::of_setting(view) is None <==> !(view is Text),
{
}

/// A path is taken from a setting that holds one, as it is, and from no other.
pub proof fn law_path_is_taken_as_it_is(setting: Setting, taken: Option<FsPath>)
    requires
        call_ensures(<FsPath as ArgumentValue>::from_setting, (setting,), taken),
    ensures
        taken is Some <==> setting is Path,
        taken matches Some(taken) ==> taken.bytes@ == setting->Path_0.bytes@,
        forall|path: Seq<u8>| #[trigger]
            <FsPath as ArgumentValue>::of_setting(SettingView::Path(path)) == Some(path),
        forall|view: SettingView| #[trigger]
            <FsPath as ArgumentValue>::of_setting(view) is None <==> !(view is Path),
{
}

/// A URL is taken from a setting that holds one, as it is, and from no other.
pub proof fn law_url_is_taken_as_it_is(setting: Setting, taken: Option<Url>)
    requires
        call_ensures(<Url as ArgumentValue>::from_setting, (setting,), taken),
    ensures
        taken is Some <==> setting is Url,
        taken matches Some(taken) ==> taken.text@ == setting->Url_0.text@,
        forall|url: Seq<char>| #[trigger]
            <Url as ArgumentValue>::of_setting(SettingView::Url(url)) == Some(url),
        forall|view: SettingView| #[trigger]
            <Url as ArgumentValue>::of_setting(view) is None <==> !(view is Url),
{
}

/// A flag in the configuration file is read as it is, and nothing else is read as a flag.
pub proof fn law_flag_in_file_is_read_as_it_is(value: &TomlValue, read: Option<bool>)
    requires
        call_ensures(<bool as FileValue>::from_toml, (value,), read),
    ensures
        read == Some(true) <==> tree_of(*value) == Tree::Boolean(true),
        read == Some(false) <==> tree_of(*value) == Tree::Boolean(false),
        <bool as FileValue>::of_tree(Tree::Boolean(true)) == Some(true),
        <bool as FileValue>::of_tree(Tree::Boolean(false)) == Some(false),
        forall|tree: Tree| #[trigger]
            <bool as FileValue>::of_tree(tree) is Some <==> tree is Boolean,
{
}

/// A port in the configuration file is read as it is, and nothing but a number that fits is read as
/// one.
pub proof fn law_port_in_file_is_read_as_it_is(value: &TomlValue, read: Option<u16>)
    requires
        call_ensures(<u16 as FileValue>::from_toml, (value,), read),
    ensures
        match tree_of(*value) {
            Tree::Integer(number) => if 0 <= number <= 65_535 {
                read matches Some(port) && port as int == number as int
            } else {
                read is None
            },
            _ => read is None,
        },
        forall|tree: Tree| #[trigger]
            <u16 as FileValue>::of_tree(tree) is Some <==> (tree matches Tree::Integer(number) && 0
                <= number <= 65_535),
        forall|number: i64|
            0 <= number <= 65_535 ==> (#[trigger] <u16 as FileValue>::of_tree(
                Tree::Integer(number),
            ))->0 as int == number as int,
{
}

/// A count in the configuration file is read as it is, and nothing but a number that fits is read as
/// one.
pub proof fn law_count_in_file_is_read_as_it_is(value: &TomlValue, read: Option<u32>)
    requires
        call_ensures(<u32 as FileValue>::from_toml, (value,), read),
    ensures
        match tree_of(*value) {
            Tree::Integer(number) => if 0 <= number <= 4_294_967_295 {
                read matches Some(count) && count as int == number as int
            } else {
                read is None
            },
            _ => read is None,
        },
        forall|tree: Tree| #[trigger]
            <u32 as FileValue>::of_tree(tree) is Some <==> (tree matches Tree::Integer(number) && 0
                <= number <= 4_294_967_295),
        forall|number: i64|
            0 <= number <= 4_294_967_295 ==> (#[trigger] <u32 as FileValue>::of_tree(
                Tree::Integer(number),
            ))->0 as int == number as int,
{
}

/// The text of a string or a date; nothing else is a text.
pub open spec fn written(tree: Tree) -> Option<Seq<char>> {
    match tree {
        Tree::Text(text) => Some(text),
        Tree::Datetime(text) => Some(text),
        _ => None,
    }
}

/// A text in the configuration file is read as it is, and a path is its bytes.
pub proof fn law_text_in_file_is_read_as_it_is(
    value: &TomlValue,
    read: Option<String>,
    path: Option<FsPath>,
    tree: Tree,
)
    requires
        call_ensures(<String as FileValue>::from_toml, (value,), read),
        call_ensures(<FsPath as FileValue>::from_toml, (value,), path),
    ensures
        match tree_of(*value) {
            Tree::Text(text) | Tree::Datetime(text) => {
                &&& read matches Some(read) && read@ == text
                &&& path matches Some(path) && path.bytes@ == encode_utf8(text)
            },
            _ => read is None && path is None,
        },
        <String as FileValue>::of_tree(tree) == written(tree),
        <FsPath as FileValue>::of_tree(tree) == (match written(tree) {
            Some(text) => Some(encode_utf8(text)),
            None => None,
        }),
{
}

/// A URL in the configuration file is what the text denotes, and nothing but such a text is one.
pub proof fn law_url_in_file_is_what_the_text_denotes(
    value: &TomlValue,
    read: Option<Url>,
    tree: Tree,
)
    requires
        call_ensures(<Url as FileValue>::from_toml, (value,), read),
    ensures
        match tree_of(*value) {
            Tree::Text(text) | Tree::Datetime(text) => match parsed_url(text) {
                Some(expected) => read matches Some(read) && read.text@ == expected,
                None => read is None,
            },
            _ => read is None,
        },
        <Url as FileValue>::of_tree(tree) == (match written(tree) {
            Some(text) => parsed_url(text),
            None => None,
        }),
{
}

/// A size in the configuration file is a number of bytes as it is, or what a text denotes.
pub proof fn law_size_in_file_is_read_as_it_is(
    value: &TomlValue,
    read: Option<ByteSize>,
    tree: Tree,
)
    requires
        call_ensures(<ByteSize as FileValue>::from_toml, (value,), read),
    ensures
        match tree_of(*value) {
            Tree::Integer(number) => if number < 0 {
                read is None
            } else {
                read matches Some(size) && size.0 as int == number as int
            },
            Tree::Text(text) | Tree::Datetime(text) => match parsed_byte_size(text) {
                Some(bytes) => read == Some(ByteSize(bytes)),
                None => read is None,
            },
            _ => read is None,
        },
        match tree {
            Tree::Integer(number) => if number < 0 {
                <ByteSize as FileValue>::of_tree(tree) is None
            } else {
                <ByteSize as FileValue>::of_tree(tree) matches Some(size) && size.0 as int
                    == number as int
            },
            Tree::Text(text) | Tree::Datetime(text) => match parsed_byte_size(text) {
                Some(bytes) => <ByteSize as FileValue>::of_tree(tree) == Some(ByteSize(bytes)),
                None => <ByteSize as FileValue>::of_tree(tree) is None,
            },
            _ => <ByteSize as FileValue>::of_tree(tree) is None,
        },
{
}

/// A span of time in the configuration file is what the text denotes. A text that denotes one is
/// refused only where its seconds cannot be counted.
pub proof fn law_span_in_file_is_what_the_text_denotes(
    value: &TomlValue,
    read: Option<HumanDuration>,
    tree: Tree,
)
    requires
        call_ensures(<HumanDuration as FileValue>::from_toml, (value,), read),
    ensures
        read == <HumanDuration as FileValue>::of_tree(tree_of(*value)),
        match written(tree) {
            Some(text) => match parsed_duration(text) {
                Some((secs, nanos)) => <HumanDuration as FileValue>::of_tree(tree) == Some(
                    HumanDuration(Duration { secs, nanos }),
                ) || !countable(text),
                None => <HumanDuration as FileValue>::of_tree(tree) is None,
            },
            None => <HumanDuration as FileValue>::of_tree(tree) is None,
        },
{
}

/// A mode in the configuration file is what the text denotes, and nothing but such a text is one.
pub proof fn law_mode_in_file_is_what_the_text_denotes(
    value: &TomlValue,
    read: Option<FileMode>,
    tree: Tree,
)
    requires
        call_ensures(<FileMode as FileValue>::from_toml, (value,), read),
    ensures
        match tree_of(*value) {
            Tree::Text(text) | Tree::Datetime(text) => match mode_of(text) {
                Some(mode) => read == Some(FileMode(mode)),
                None => read is None,
            },
            _ => read is None,
        },
        <FileMode as FileValue>::of_tree(tree) == (match written(tree) {
            Some(text) => match mode_of(text) {
                Some(mode) => Some(FileMode(mode)),
                None => None,
            },
            None => None,
        }),
{
}

/// Whether a value picks the choice with this word: it is the word, or a table with the word as its
/// only key and nothing under it.
pub open spec fn picks(tree: Tree, word: Seq<char>) -> bool {
    match tree {
        Tree::Text(text) => text == word,
        Tree::Table(entries) => {
            &&& entries.contains_key(word)
            &&& forall|key: Seq<char>| entries.contains_key(key) ==> key == word
            &&& match entries[word] {
                Tree::Array(items) => items.len() == 0,
                Tree::Table(inner) => forall|key: Seq<char>| !inner.contains_key(key),
                _ => false,
            }
        },
        _ => false,
    }
}

proof fn lemma_picks(tree: Tree, word: Seq<char>)
    ensures
        selects(tree, word) == picks(tree, word),
{
    if let Tree::Table(entries) = tree {
        assert(set![word].contains(word));
        if picks(tree, word) {
            assert(entries.dom() =~= set![word]);
            if let Tree::Table(inner) = entries[word] {
                assert(inner.dom() =~= Set::empty());
            }
        }
        if selects(tree, word) {
            assert forall|key: Seq<char>| entries.contains_key(key) implies key == word by {
                assert(entries.dom().contains(key));
            }
            if let Tree::Table(inner) = entries[word] {
                assert forall|key: Seq<char>| !inner.contains_key(key) by {
                    assert(!inner.dom().contains(key));
                }
            }
        }
    }
}

/// No value picks two words.
proof fn lemma_one_pick(tree: Tree, word: Seq<char>, other: Seq<char>)
    requires
        picks(tree, word),
        picks(tree, other),
    ensures
        word == other,
{
}

/// A level in the configuration file is the one that the value picks by its word.
pub proof fn law_level_in_file_goes_by_its_word(value: &TomlValue, read: Option<LogLevel>, tree: Tree)
    requires
        call_ensures(<LogLevel as FileValue>::from_toml, (value,), read),
    ensures
        read == Some(LogLevel::Error) <==> picks(tree_of(*value), "error"@),
        read == Some(LogLevel::Warn) <==> picks(tree_of(*value), "warn"@),
        read == Some(LogLevel::Info) <==> picks(tree_of(*value), "info"@),
        read == Some(LogLevel::Debug) <==> picks(tree_of(*value), "debug"@),
        read == Some(LogLevel::Trace) <==> picks(tree_of(*value), "trace"@),
        <LogLevel as FileValue>::of_tree(tree) == Some(LogLevel::Error) <==> picks(tree, "error"@),
        <LogLevel as FileValue>::of_tree(tree) == Some(LogLevel::Warn) <==> picks(tree, "warn"@),
        <LogLevel as FileValue>::of_tree(tree) == Some(LogLevel::Info) <==> picks(tree, "info"@),
        <LogLevel as FileValue>::of_tree(tree) == Some(LogLevel::Debug) <==> picks(tree, "debug"@),
        <LogLevel as FileValue>::of_tree(tree) == Some(LogLevel::Trace) <==> picks(tree, "trace"@),
{
    lemma_picks(tree, "error"@);
    lemma_picks(tree_of(*value), "error"@);
    lemma_picks(tree, "warn"@);
    lemma_picks(tree_of(*value), "warn"@);
    lemma_picks(tree, "info"@);
    lemma_picks(tree_of(*value), "info"@);
    lemma_picks(tree, "debug"@);
    lemma_picks(tree_of(*value), "debug"@);
    lemma_picks(tree, "trace"@);
    lemma_picks(tree_of(*value), "trace"@);
    reveal_strlit("error");
    reveal_strlit("warn");
    reveal_strlit("info");
    reveal_strlit("debug");
    reveal_strlit("trace");
    assert("error"@.len() == 5 && "error"@[0] == 'e' && "warn"@.len() == 4 && "warn"@[0] == 'w' && "info"@.len() == 4 && "info"@[0] == 'i' && "debug"@.len() == 5 && "debug"@[0] == 'd' && "trace"@.len() == 5 && "trace"@[0] == 't');
    let both = seq![tree, tree_of(*value)];
    assert forall|i: int| 0 <= i < 2 implies one_word_level(#[trigger] both[i]) by {
        let each = both[i];
        if picks(each, "error"@) && picks(each, "warn"@) {
            lemma_one_pick(each, "error"@, "warn"@);
        }
        if picks(each, "error"@) && picks(each, "info"@) {
            lemma_one_pick(each, "error"@, "info"@);
        }
        if picks(each, "error"@) && picks(each, "debug"@) {
            lemma_one_pick(each, "error"@, "debug"@);
        }
        if picks(each, "error"@) && picks(each, "trace"@) {
            lemma_one_pick(each, "error"@, "trace"@);
        }
        if picks(each, "warn"@) && picks(each, "info"@) {
            lemma_one_pick(each, "warn"@, "info"@);
        }
        if picks(each, "warn"@) && picks(each, "debug"@) {
            lemma_one_pick(each, "warn"@, "debug"@);
        }
        if picks(each, "warn"@) && picks(each, "trace"@) {
            lemma_one_pick(each, "warn"@, "trace"@);
        }
        if picks(each, "info"@) && picks(each, "debug"@) {
            lemma_one_pick(each, "info"@, "debug"@);
        }
        if picks(each, "info"@) && picks(each, "trace"@) {
            lemma_one_pick(each, "info"@, "trace"@);
        }
        if picks(each, "debug"@) && picks(each, "trace"@) {
            lemma_one_pick(each, "debug"@, "trace"@);
        }
    }
    assert(one_word_level(both[0]) && one_word_level(both[1]));
}

/// At most one of the words is picked.
spec fn one_word_level(each: Tree) -> bool {
    &&& !(picks(each, "error"@) && picks(each, "warn"@))
    &&& !(picks(each, "error"@) && picks(each, "info"@))
    &&& !(picks(each, "error"@) && picks(each, "debug"@))
    &&& !(picks(each, "error"@) && picks(each, "trace"@))
    &&& !(picks(each, "warn"@) && picks(each, "info"@))
    &&& !(picks(each, "warn"@) && picks(each, "debug"@))
    &&& !(picks(each, "warn"@) && picks(each, "trace"@))
    &&& !(picks(each, "info"@) && picks(each, "debug"@))
    &&& !(picks(each, "info"@) && picks(each, "trace"@))
    &&& !(picks(each, "debug"@) && picks(each, "trace"@))
}

/// A format in the configuration file is the one that the value picks by its word.
pub proof fn law_format_in_file_goes_by_its_word(value: &TomlValue, read: Option<LogFormat>, tree: Tree)
    requires
        call_ensures(<LogFormat as FileValue>::from_toml, (value,), read),
    ensures
        read == Some(LogFormat::Json) <==> picks(tree_of(*value), "json"@),
        read == Some(LogFormat::Pretty) <==> picks(tree_of(*value), "pretty"@),
        read == Some(LogFormat::Compact) <==> picks(tree_of(*value), "compact"@),
        <LogFormat as FileValue>::of_tree(tree) == Some(LogFormat::Json) <==> picks(tree, "json"@),
        <LogFormat as FileValue>::of_tree(tree) == Some(LogFormat::Pretty) <==> picks(tree, "pretty"@),
        <LogFormat as FileValue>::of_tree(tree) == Some(LogFormat::Compact) <==> picks(tree, "compact"@),
{
    lemma_picks(tree, "json"@);
    lemma_picks(tree_of(*value), "json"@);
    lemma_picks(tree, "pretty"@);
    lemma_picks(tree_of(*value), "pretty"@);
    lemma_picks(tree, "compact"@);
    lemma_picks(tree_of(*value), "compact"@);
    reveal_strlit("json");
    reveal_strlit("pretty");
    reveal_strlit("compact");
    assert("json"@.len() == 4 && "json"@[0] == 'j' && "pretty"@.len() == 6 && "pretty"@[0] == 'p' && "compact"@.len() == 7 && "compact"@[0] == 'c');
    let both = seq![tree, tree_of(*value)];
    assert forall|i: int| 0 <= i < 2 implies one_word_format(#[trigger] both[i]) by {
        let each = both[i];
        if picks(each, "json"@) && picks(each, "pretty"@) {
            lemma_one_pick(each, "json"@, "pretty"@);
        }
        if picks(each, "json"@) && picks(each, "compact"@) {
            lemma_one_pick(each, "json"@, "compact"@);
        }
        if picks(each, "pretty"@) && picks(each, "compact"@) {
            lemma_one_pick(each, "pretty"@, "compact"@);
        }
    }
    assert(one_word_format(both[0]) && one_word_format(both[1]));
}

/// At most one of the words is picked.
spec fn one_word_format(each: Tree) -> bool {
    &&& !(picks(each, "json"@) && picks(each, "pretty"@))
    &&& !(picks(each, "json"@) && picks(each, "compact"@))
    &&& !(picks(each, "pretty"@) && picks(each, "compact"@))
}

/// A policy in the configuration file is the one that the value picks by its word.
pub proof fn law_policy_in_file_goes_by_its_word(value: &TomlValue, read: Option<SymlinkPolicy>, tree: Tree)
    requires
        call_ensures(<SymlinkPolicy as FileValue>::from_toml, (value,), read),
    ensures
        read == Some(SymlinkPolicy::Reject) <==> picks(tree_of(*value), "reject"@),
        read == Some(SymlinkPolicy::FollowSafe) <==> picks(tree_of(*value), "follow_safe"@),
        <SymlinkPolicy as FileValue>::of_tree(tree) == Some(SymlinkPolicy::Reject) <==> picks(tree, "reject"@),
        <SymlinkPolicy as FileValue>::of_tree(tree) == Some(SymlinkPolicy::FollowSafe) <==> picks(tree, "follow_safe"@),
{
    lemma_picks(tree, "reject"@);
    lemma_picks(tree_of(*value), "reject"@);
    lemma_picks(tree, "follow_safe"@);
    lemma_picks(tree_of(*value), "follow_safe"@);
    reveal_strlit("reject");
    reveal_strlit("follow_safe");
    assert("reject"@.len() == 6 && "reject"@[0] == 'r' && "follow_safe"@.len() == 11 && "follow_safe"@[0] == 'f');
    let both = seq![tree, tree_of(*value)];
    assert forall|i: int| 0 <= i < 2 implies one_word_policy(#[trigger] both[i]) by {
        let each = both[i];
        if picks(each, "reject"@) && picks(each, "follow_safe"@) {
            lemma_one_pick(each, "reject"@, "follow_safe"@);
        }
    }
    assert(one_word_policy(both[0]) && one_word_policy(both[1]));
}

/// At most one of the words is picked.
spec fn one_word_policy(each: Tree) -> bool {
    &&& !(picks(each, "reject"@) && picks(each, "follow_safe"@))
}

/// A level on the command line goes by its word.
pub proof fn law_level_argument_goes_by_its_word(word: &str, read: Option<LogLevel>)
    requires
        call_ensures(LogLevel::from_argument, (word,), read),
    ensures
        read == Some(LogLevel::Error) <==> word@ == "error"@,
        read == Some(LogLevel::Warn) <==> word@ == "warn"@,
        read == Some(LogLevel::Info) <==> word@ == "info"@,
        read == Some(LogLevel::Debug) <==> word@ == "debug"@,
        read == Some(LogLevel::Trace) <==> word@ == "trace"@,
{
    reveal_strlit("error");
    reveal_strlit("warn");
    reveal_strlit("info");
    reveal_strlit("debug");
    reveal_strlit("trace");
    assert("error"@.len() == 5 && "error"@[0] == 'e' && "warn"@.len() == 4 && "warn"@[0] == 'w' && "info"@.len() == 4 && "info"@[0] == 'i' && "debug"@.len() == 5 && "debug"@[0] == 'd' && "trace"@.len() == 5 && "trace"@[0] == 't');
}

/// A format on the command line goes by its word.
pub proof fn law_format_argument_goes_by_its_word(word: &str, read: Option<LogFormat>)
    requires
        call_ensures(LogFormat::from_argument, (word,), read),
    ensures
        read == Some(LogFormat::Json) <==> word@ == "json"@,
        read == Some(LogFormat::Pretty) <==> word@ == "pretty"@,
        read == Some(LogFormat::Compact) <==> word@ == "compact"@,
{
    reveal_strlit("json");
    reveal_strlit("pretty");
    reveal_strlit("compact");
    assert("json"@.len() == 4 && "json"@[0] == 'j' && "pretty"@.len() == 6 && "pretty"@[0] == 'p' && "compact"@.len() == 7 && "compact"@[0] == 'c');
}

/// A policy on the command line goes by its word.
pub proof fn law_policy_argument_goes_by_its_word(word: &str, read: Option<SymlinkPolicy>)
    requires
        call_ensures(SymlinkPolicy::from_argument, (word,), read),
    ensures
        read == Some(SymlinkPolicy::Reject) <==> word@ == "reject"@,
        read == Some(SymlinkPolicy::FollowSafe) <==> word@ == "follow-safe"@,
{
    reveal_strlit("reject");
    reveal_strlit("follow-safe");
    assert("reject"@.len() == 6 && "reject"@[0] == 'r' && "follow-safe"@.len() == 11 && "follow-safe"@[0] == 'f');
}

/// An item of a list is a text as it is, or the root that the text denotes.
pub proof fn law_item_is_read_as_it_is(
    text: &str,
    item: Option<String>,
    root: Option<Root>,
    other: Seq<char>,
)
    requires
        call_ensures(<String as ListItem>::from_text, (text,), item),
        call_ensures(<Root as ListItem>::from_text, (text,), root),
    ensures
        item matches Some(item) && item@ == text@,
        match root_of(text@) {
            Ok(denoted) => root matches Some(root) && root.id@ == denoted.id && root.path.bytes@
                == denoted.path,
            Err(_) => root is None,
        },
        <String as ListItem>::of_text(other) == Some(other),
        <Root as ListItem>::of_text(other) == (match root_of(other) {
            Ok(denoted) => Some(denoted),
            Err(_) => None,
        }),
{
}

/// A copy holds what the original holds.
pub proof fn law_copies_hold_the_same(
    setting: &Setting,
    setting_copy: Setting,
    path: &FsPath,
    path_copy: FsPath,
    url: &Url,
    url_copy: Url,
    root: &Root,
    root_copy: Root,
)
    requires
        call_ensures(<Setting as Clone>::clone, (setting,), setting_copy),
        call_ensures(<FsPath as Clone>::clone, (path,), path_copy),
        call_ensures(<Url as Clone>::clone, (url,), url_copy),
        call_ensures(<Root as Clone>::clone, (root,), root_copy),
    ensures
        setting_copy@ == setting@,
        path_copy.bytes@ == path.bytes@,
        url_copy.text@ == url.text@,
        root_copy.id@ == root.id@ && root_copy.path.bytes@ == root.path.bytes@,
{
}

/// The mode that stands for none is zero.
pub proof fn law_default_mode_is_zero(mode: FileMode)
    requires
        call_ensures(<FileMode as Default>::default, (), mode),
    ensures
        mode.0 == 0,
{
}

/// A span of time stays the same when its type changes.
pub proof fn law_span_stays_the_same(
    duration: Duration,
    human: HumanDuration,
    there: HumanDuration,
    back: Duration,
)
    requires
        call_ensures(<HumanDuration as From<Duration>>::from, (duration,), there),
        call_ensures(<Duration as From<HumanDuration>>::from, (human,), back),
    ensures
        there.0 == duration,
        back == human.0,
{
}

} // verus!
