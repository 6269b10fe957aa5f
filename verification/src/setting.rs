//! The values that a setting can take, as the command line and the configuration file give them.
use crate::choices::{LogFormat, LogLevel, SymlinkPolicy};
use crate::duration::{duration_of, HumanDuration};
use crate::file::{open_value, read_text, text_of, tree_of, Node, Tree};
use crate::mode::{mode_of, FileMode};
use crate::path::FsPath;
use crate::root::{root_of, Root, RootView};
use crate::scalars::{parsed_byte_size, parsed_url, ByteSize, IpAddr, SocketAddr, Url};
use core::str::FromStr;
use toml::Value as TomlValue;
use vstd::prelude::*;
use vstd::utf8::encode_utf8;

verus! {

/// A value that the command line parser has read.
#[derive(Debug)]
pub enum Setting {
    Flag(bool),
    Port(u16),
    Count(u32),
    Text(String),
    Path(FsPath),
    Url(Url),
    Size(ByteSize),
    Span(HumanDuration),
    Mode(FileMode),
    Level(LogLevel),
    Format(LogFormat),
    Symlinks(SymlinkPolicy),
    Ip(IpAddr),
    Socket(SocketAddr),
}

/// What a value that the command line parser has read holds.
pub enum SettingView {
    Flag(bool),
    Port(u16),
    Count(u32),
    Text(Seq<char>),
    Path(Seq<u8>),
    Url(Seq<char>),
    Size(ByteSize),
    Span(HumanDuration),
    Mode(FileMode),
    Level(LogLevel),
    Format(LogFormat),
    Symlinks(SymlinkPolicy),
    Ip(IpAddr),
    Socket(SocketAddr),
}

impl View for Setting {
    type V = SettingView;

    open spec fn view(&self) -> SettingView {
        match *self {
            Setting::Flag(flag) => SettingView::Flag(flag),
            Setting::Port(port) => SettingView::Port(port),
            Setting::Count(count) => SettingView::Count(count),
            Setting::Text(text) => SettingView::Text(text@),
            Setting::Path(path) => SettingView::Path(path@),
            Setting::Url(url) => SettingView::Url(url@),
            Setting::Size(size) => SettingView::Size(size),
            Setting::Span(span) => SettingView::Span(span),
            Setting::Mode(mode) => SettingView::Mode(mode),
            Setting::Level(level) => SettingView::Level(level),
            Setting::Format(format) => SettingView::Format(format),
            Setting::Symlinks(policy) => SettingView::Symlinks(policy),
            Setting::Ip(address) => SettingView::Ip(address),
            Setting::Socket(address) => SettingView::Socket(address),
        }
    }
}

impl Clone for Setting {
    fn clone(&self) -> (copy: Setting)
        ensures
            copy@ == self@,
    {
        match self {
            Setting::Flag(flag) => Setting::Flag(*flag),
            Setting::Port(port) => Setting::Port(*port),
            Setting::Count(count) => Setting::Count(*count),
            Setting::Text(text) => Setting::Text(text.clone()),
            Setting::Path(path) => Setting::Path(path.clone()),
            Setting::Url(url) => Setting::Url(url.clone()),
            Setting::Size(size) => Setting::Size(*size),
            Setting::Span(span) => Setting::Span(*span),
            Setting::Mode(mode) => Setting::Mode(*mode),
            Setting::Level(level) => Setting::Level(*level),
            Setting::Format(format) => Setting::Format(*format),
            Setting::Symlinks(policy) => Setting::Symlinks(*policy),
            Setting::Ip(address) => Setting::Ip(*address),
            Setting::Socket(address) => Setting::Socket(*address),
        }
    }
}

/// A type whose values can be given on the command line.
pub trait ArgumentValue: Sized + DeepView {
    /// The value that a setting holds, if it is one of this type.
    spec fn of_setting(setting: SettingView) -> Option<<Self as DeepView>::V>;

    /// Takes the value out of a setting, if it is one of this type.
    fn from_setting(setting: Setting) -> (value: Option<Self>)
        ensures
            match value {
                Some(value) => Self::of_setting(setting@) == Some(value.deep_view()),
                None => Self::of_setting(setting@) is None,
            },
    ;

    /// Another value that is the same.
    fn duplicate(&self) -> (copy: Self)
        ensures
            copy.deep_view() == self.deep_view(),
    ;
}

/// A type whose values can be given in the configuration file too.
pub trait FileValue: ArgumentValue {
    /// The value that a TOML value holds, if it is one of this type.
    spec fn of_tree(tree: Tree) -> Option<<Self as DeepView>::V>;

    /// Reads a TOML value as one of this type.
    fn from_toml(value: &TomlValue) -> (read: Option<Self>)
        ensures
            match read {
                Some(read) => Self::of_tree(tree_of(*value)) == Some(read.deep_view()),
                None => Self::of_tree(tree_of(*value)) is None,
            },
    ;
}

/// A type of which a setting can hold a list, each item written as text.
pub trait ListItem: Sized + DeepView {
    /// The item that a text denotes, if it is one of this type.
    spec fn of_text(text: Seq<char>) -> Option<<Self as DeepView>::V>;

    /// Reads an item.
    fn from_text(text: &str) -> (item: Option<Self>)
        ensures
            match item {
                Some(item) => Self::of_text(text@) == Some(item.deep_view()),
                None => Self::of_text(text@) is None,
            },
    ;
}

/// The items that all the texts denote, if they are all of this type.
pub open spec fn all_items<T: ListItem>(texts: Seq<Seq<char>>) -> Option<Seq<<T as DeepView>::V>> {
    if forall|i: int| 0 <= i < texts.len() ==> T::of_text(#[trigger] texts[i]) is Some {
        Some(texts.map_values(|text: Seq<char>| T::of_text(text)->0))
    } else {
        None
    }
}

/// Reads all the items of a list.
pub fn read_items<T: ListItem>(texts: &Vec<String>) -> (items: Option<Vec<T>>)
    ensures
        match items {
            Some(items) => all_items::<T>(texts.deep_view()) == Some(items.deep_view()),
            None => all_items::<T>(texts.deep_view()) is None,
        },
{
    let ghost views = texts.deep_view();
    let mut items: Vec<T> = Vec::new();
    let mut at: usize = 0;
    while at < texts.len()
        invariant
            at <= texts.len(),
            items.len() == at,
            views == texts.deep_view(),
            forall|i: int|
                0 <= i < at ==> T::of_text(#[trigger] views[i]) == Some(items[i].deep_view()),
        decreases texts.len() - at,
    {
        assert(views[at as int] == texts[at as int]@);
        match T::from_text(texts[at].as_str()) {
            None => {
                return None;
            },
            Some(item) => {
                items.push(item);
            },
        }
        at = at + 1;
    }
    assert(items.deep_view() =~= views.map_values(|text: Seq<char>| T::of_text(text)->0));
    Some(items)
}

impl ArgumentValue for bool {
    open spec fn of_setting(setting: SettingView) -> Option<<bool as DeepView>::V> {
        match setting {
            SettingView::Flag(flag) => Some(flag),
            _ => None,
        }
    }

    fn from_setting(setting: Setting) -> (value: Option<bool>) {
        match setting {
            Setting::Flag(flag) => Some(flag),
            _ => None,
        }
    }

    fn duplicate(&self) -> (copy: bool) {
        *self
    }
}

impl FileValue for bool {
    open spec fn of_tree(tree: Tree) -> Option<<bool as DeepView>::V> {
        match tree {
            Tree::Boolean(flag) => Some(flag),
            _ => None,
        }
    }

    fn from_toml(value: &TomlValue) -> (read: Option<bool>) {
        match open_value(value) {
            Node::Boolean(flag) => Some(flag),
            _ => None,
        }
    }
}

impl ArgumentValue for u16 {
    open spec fn of_setting(setting: SettingView) -> Option<<u16 as DeepView>::V> {
        match setting {
            SettingView::Port(port) => Some(port),
            _ => None,
        }
    }

    fn from_setting(setting: Setting) -> (value: Option<u16>) {
        match setting {
            Setting::Port(port) => Some(port),
            _ => None,
        }
    }

    fn duplicate(&self) -> (copy: u16) {
        *self
    }
}

impl FileValue for u16 {
    open spec fn of_tree(tree: Tree) -> Option<<u16 as DeepView>::V> {
        match tree {
            Tree::Integer(number) if 0 <= number <= u16::MAX => Some(number as u16),
            _ => None,
        }
    }

    fn from_toml(value: &TomlValue) -> (read: Option<u16>) {
        match open_value(value) {
            Node::Integer(number) => {
                if 0 <= number && number <= u16::MAX as i64 {
                    Some(number as u16)
                } else {
                    None
                }
            },
            _ => None,
        }
    }
}

impl ArgumentValue for u32 {
    open spec fn of_setting(setting: SettingView) -> Option<<u32 as DeepView>::V> {
        match setting {
            SettingView::Count(count) => Some(count),
            _ => None,
        }
    }

    fn from_setting(setting: Setting) -> (value: Option<u32>) {
        match setting {
            Setting::Count(count) => Some(count),
            _ => None,
        }
    }

    fn duplicate(&self) -> (copy: u32) {
        *self
    }
}

impl FileValue for u32 {
    open spec fn of_tree(tree: Tree) -> Option<<u32 as DeepView>::V> {
        match tree {
            Tree::Integer(number) if 0 <= number <= u32::MAX => Some(number as u32),
            _ => None,
        }
    }

    fn from_toml(value: &TomlValue) -> (read: Option<u32>) {
        match open_value(value) {
            Node::Integer(number) => {
                if 0 <= number && number <= u32::MAX as i64 {
                    Some(number as u32)
                } else {
                    None
                }
            },
            _ => None,
        }
    }
}

impl ArgumentValue for String {
    open spec fn of_setting(setting: SettingView) -> Option<<String as DeepView>::V> {
        match setting {
            SettingView::Text(text) => Some(text),
            _ => None,
        }
    }

    fn from_setting(setting: Setting) -> (value: Option<String>) {
        match setting {
            Setting::Text(text) => Some(text),
            _ => None,
        }
    }

    fn duplicate(&self) -> (copy: String) {
        self.clone()
    }
}

impl FileValue for String {
    open spec fn of_tree(tree: Tree) -> Option<<String as DeepView>::V> {
        text_of(tree)
    }

    fn from_toml(value: &TomlValue) -> (read: Option<String>) {
        read_text(value)
    }
}

impl ArgumentValue for FsPath {
    open spec fn of_setting(setting: SettingView) -> Option<<FsPath as DeepView>::V> {
        match setting {
            SettingView::Path(path) => Some(path),
            _ => None,
        }
    }

    fn from_setting(setting: Setting) -> (value: Option<FsPath>) {
        match setting {
            Setting::Path(path) => Some(path),
            _ => None,
        }
    }

    fn duplicate(&self) -> (copy: FsPath) {
        self.clone()
    }
}

impl FileValue for FsPath {
    open spec fn of_tree(tree: Tree) -> Option<<FsPath as DeepView>::V> {
        match text_of(tree) {
            Some(text) => Some(encode_utf8(text)),
            None => None,
        }
    }

    fn from_toml(value: &TomlValue) -> (read: Option<FsPath>) {
        match read_text(value) {
            Some(text) => Some(FsPath::new(text.as_str())),
            None => None,
        }
    }
}

impl ArgumentValue for Url {
    open spec fn of_setting(setting: SettingView) -> Option<<Url as DeepView>::V> {
        match setting {
            SettingView::Url(url) => Some(url),
            _ => None,
        }
    }

    fn from_setting(setting: Setting) -> (value: Option<Url>) {
        match setting {
            Setting::Url(url) => Some(url),
            _ => None,
        }
    }

    fn duplicate(&self) -> (copy: Url) {
        self.clone()
    }
}

impl FileValue for Url {
    open spec fn of_tree(tree: Tree) -> Option<<Url as DeepView>::V> {
        match text_of(tree) {
            Some(text) => parsed_url(text),
            None => None,
        }
    }

    fn from_toml(value: &TomlValue) -> (read: Option<Url>) {
        match read_text(value) {
            Some(text) => Url::parse(text.as_str()),
            None => None,
        }
    }
}

impl ArgumentValue for ByteSize {
    open spec fn of_setting(setting: SettingView) -> Option<<ByteSize as DeepView>::V> {
        match setting {
            SettingView::Size(size) => Some(size),
            _ => None,
        }
    }

    fn from_setting(setting: Setting) -> (value: Option<ByteSize>) {
        match setting {
            Setting::Size(size) => Some(size),
            _ => None,
        }
    }

    fn duplicate(&self) -> (copy: ByteSize) {
        *self
    }
}

impl FileValue for ByteSize {
    open spec fn of_tree(tree: Tree) -> Option<<ByteSize as DeepView>::V> {
        match tree {
            Tree::Integer(number) if 0 <= number => Some(ByteSize(number as u64)),
            _ => match text_of(tree) {
                Some(text) => match parsed_byte_size(text) {
                    Some(bytes) => Some(ByteSize(bytes)),
                    None => None,
                },
                None => None,
            },
        }
    }

    fn from_toml(value: &TomlValue) -> (read: Option<ByteSize>) {
        match open_value(value) {
            Node::Integer(number) => {
                if 0 <= number {
                    Some(ByteSize(number as u64))
                } else {
                    None
                }
            },
            Node::Text(text) => ByteSize::parse(text.as_str()),
            Node::Datetime(text) => ByteSize::parse(text.as_str()),
            _ => None,
        }
    }
}

impl ArgumentValue for HumanDuration {
    open spec fn of_setting(setting: SettingView) -> Option<<HumanDuration as DeepView>::V> {
        match setting {
            SettingView::Span(span) => Some(span),
            _ => None,
        }
    }

    fn from_setting(setting: Setting) -> (value: Option<HumanDuration>) {
        match setting {
            Setting::Span(span) => Some(span),
            _ => None,
        }
    }

    fn duplicate(&self) -> (copy: HumanDuration) {
        *self
    }
}

impl FileValue for HumanDuration {
    open spec fn of_tree(tree: Tree) -> Option<<HumanDuration as DeepView>::V> {
        match text_of(tree) {
            Some(text) => match duration_of(text) {
                Some(duration) => Some(HumanDuration(duration)),
                None => None,
            },
            None => None,
        }
    }

    fn from_toml(value: &TomlValue) -> (read: Option<HumanDuration>) {
        match read_text(value) {
            Some(text) => match HumanDuration::from_str(text.as_str()) {
                Ok(duration) => Some(duration),
                Err(_) => None,
            },
            None => None,
        }
    }
}

impl ArgumentValue for FileMode {
    open spec fn of_setting(setting: SettingView) -> Option<<FileMode as DeepView>::V> {
        match setting {
            SettingView::Mode(mode) => Some(mode),
            _ => None,
        }
    }

    fn from_setting(setting: Setting) -> (value: Option<FileMode>) {
        match setting {
            Setting::Mode(mode) => Some(mode),
            _ => None,
        }
    }

    fn duplicate(&self) -> (copy: FileMode) {
        *self
    }
}

impl FileValue for FileMode {
    open spec fn of_tree(tree: Tree) -> Option<<FileMode as DeepView>::V> {
        match text_of(tree) {
            Some(text) => match mode_of(text) {
                Some(mode) => Some(FileMode(mode)),
                None => None,
            },
            None => None,
        }
    }

    fn from_toml(value: &TomlValue) -> (read: Option<FileMode>) {
        match read_text(value) {
            Some(text) => match FileMode::from_str(text.as_str()) {
                Ok(mode) => Some(mode),
                Err(_) => None,
            },
            None => None,
        }
    }
}

impl ListItem for String {
    open spec fn of_text(text: Seq<char>) -> Option<Seq<char>> {
        Some(text)
    }

    fn from_text(text: &str) -> (item: Option<String>) {
        Some(text.to_owned())
    }
}

impl ListItem for Root {
    open spec fn of_text(text: Seq<char>) -> Option<RootView> {
        match root_of(text) {
            Ok(root) => Some(root),
            Err(_) => None,
        }
    }

    fn from_text(text: &str) -> (item: Option<Root>) {
        match Root::from_str(text) {
            Ok(root) => Some(root),
            Err(_) => None,
        }
    }
}

impl ArgumentValue for LogLevel {
    open spec fn of_setting(setting: SettingView) -> Option<<LogLevel as DeepView>::V> {
        match setting {
            SettingView::Level(level) => Some(level),
            _ => None,
        }
    }

    fn from_setting(setting: Setting) -> (value: Option<LogLevel>) {
        match setting {
            Setting::Level(level) => Some(level),
            _ => None,
        }
    }

    fn duplicate(&self) -> (copy: LogLevel) {
        *self
    }
}

impl FileValue for LogLevel {
    open spec fn of_tree(tree: Tree) -> Option<<LogLevel as DeepView>::V> {
        LogLevel::selected(tree)
    }

    fn from_toml(value: &TomlValue) -> (read: Option<LogLevel>) {
        let node: Node = open_value(value);
        LogLevel::select(&node)
    }
}

impl ArgumentValue for LogFormat {
    open spec fn of_setting(setting: SettingView) -> Option<<LogFormat as DeepView>::V> {
        match setting {
            SettingView::Format(format) => Some(format),
            _ => None,
        }
    }

    fn from_setting(setting: Setting) -> (value: Option<LogFormat>) {
        match setting {
            Setting::Format(format) => Some(format),
            _ => None,
        }
    }

    fn duplicate(&self) -> (copy: LogFormat) {
        *self
    }
}

impl FileValue for LogFormat {
    open spec fn of_tree(tree: Tree) -> Option<<LogFormat as DeepView>::V> {
        LogFormat::selected(tree)
    }

    fn from_toml(value: &TomlValue) -> (read: Option<LogFormat>) {
        let node: Node = open_value(value);
        LogFormat::select(&node)
    }
}

impl ArgumentValue for SymlinkPolicy {
    open spec fn of_setting(setting: SettingView) -> Option<<SymlinkPolicy as DeepView>::V> {
        match setting {
            SettingView::Symlinks(policy) => Some(policy),
            _ => None,
        }
    }

    fn from_setting(setting: Setting) -> (value: Option<SymlinkPolicy>) {
        match setting {
            Setting::Symlinks(policy) => Some(policy),
            _ => None,
        }
    }

    fn duplicate(&self) -> (copy: SymlinkPolicy) {
        *self
    }
}

impl FileValue for SymlinkPolicy {
    open spec fn of_tree(tree: Tree) -> Option<<SymlinkPolicy as DeepView>::V> {
        SymlinkPolicy::selected(tree)
    }

    fn from_toml(value: &TomlValue) -> (read: Option<SymlinkPolicy>) {
        let node: Node = open_value(value);
        SymlinkPolicy::select(&node)
    }
}

impl ArgumentValue for IpAddr {
    open spec fn of_setting(setting: SettingView) -> Option<<IpAddr as DeepView>::V> {
        match setting {
            SettingView::Ip(address) => Some(address),
            _ => None,
        }
    }

    fn from_setting(setting: Setting) -> (value: Option<IpAddr>) {
        match setting {
            Setting::Ip(address) => Some(address),
            _ => None,
        }
    }

    fn duplicate(&self) -> (copy: IpAddr) {
        *self
    }
}

impl ArgumentValue for SocketAddr {
    open spec fn of_setting(setting: SettingView) -> Option<<SocketAddr as DeepView>::V> {
        match setting {
            SettingView::Socket(address) => Some(address),
            _ => None,
        }
    }

    fn from_setting(setting: Setting) -> (value: Option<SocketAddr>) {
        match setting {
            Setting::Socket(address) => Some(address),
            _ => None,
        }
    }

    fn duplicate(&self) -> (copy: SocketAddr) {
        *self
    }
}

} // verus!
