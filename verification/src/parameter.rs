//! One configuration knob, and how its value is found.
use crate::arguments::{
    get_many, get_one, many_arguments, one_argument, read_from_arguments, Lookup,
};
use crate::error::ConfigError;
use crate::file::{entries_of, find, open_value, read_text, text_of, tree_of, value_under, Node, Tree};
use crate::setting::{all_items, read_items, ArgumentValue, FileValue, ListItem};
use crate::text::{strip_leading_dashes, without_leading_dashes};
use crate::value::{Value, ValueSource};
use core::marker::PhantomData;
use toml::Value as TomlValue;
use vstd::prelude::*;

verus! {

/// What there is of a setting in the configuration file.
#[derive(Debug, PartialEq, Eq)]
pub enum FileLookup<V> {
    /// Nothing.
    Absent,
    /// A value that does not fit the setting.
    Mismatch,
    /// A value.
    Found(V),
}

impl<V: Copy> Clone for FileLookup<V> {
    fn clone(&self) -> (copy: FileLookup<V>)
        ensures
            copy == *self,
    {
        *self
    }
}

impl<V: Copy> Copy for FileLookup<V> {

}

/// The same lookup, of what the value stands for.
pub open spec fn viewed<T: DeepView>(lookup: FileLookup<T>) -> FileLookup<T::V> {
    match lookup {
        FileLookup::Absent => FileLookup::Absent,
        FileLookup::Mismatch => FileLookup::Mismatch,
        FileLookup::Found(value) => FileLookup::Found(value.deep_view()),
    }
}

/// What a value of the configuration file comes to, where `read` says which values fit.
pub open spec fn fitted<V>(tree: Option<Tree>, read: spec_fn(Tree) -> Option<V>) -> FileLookup<V> {
    match tree {
        None => FileLookup::Absent,
        Some(tree) => match read(tree) {
            None => FileLookup::Mismatch,
            Some(value) => FileLookup::Found(value),
        },
    }
}

/// What reading a setting from the configuration file comes to, where `lookup` is what there is of
/// it.
pub open spec fn read_from_file<T: DeepView>(
    outcome: Result<Option<(T, ValueSource)>, ConfigError>,
    lookup: FileLookup<T::V>,
    key: &'static str,
) -> bool {
    match outcome {
        Ok(None) => lookup is Absent,
        Ok(Some((value, source))) => lookup == FileLookup::Found(value.deep_view()) && source
            == ValueSource::ConfigFile,
        Err(error) => lookup is Mismatch && error == ConfigError::FileValue { key },
    }
}

/// The texts of the items of an array, if they can all be read as text.
pub open spec fn texts_of(items: Seq<Tree>) -> Option<Seq<Seq<char>>> {
    if forall|i: int| 0 <= i < items.len() ==> text_of(#[trigger] items[i]) is Some {
        Some(items.map_values(|item: Tree| text_of(item)->0))
    } else {
        None
    }
}

/// The items of an array of texts, if they all fit.
pub open spec fn list_of<T: ListItem>(tree: Tree) -> Option<Seq<<T as DeepView>::V>> {
    match tree {
        Tree::Array(items) => match texts_of(items) {
            Some(texts) => all_items::<T>(texts),
            None => None,
        },
        _ => None,
    }
}

/// Reads the setting under a dotted key.
pub fn get_from_file_config<T: FileValue>(
    file_config: &toml::Table,
    key: &'static str,
) -> (outcome: Result<Option<(T, ValueSource)>, ConfigError>)
    ensures
        read_from_file(
            outcome,
            fitted(value_under(entries_of(*file_config), key@), |tree: Tree| T::of_tree(tree)),
            key,
        ),
{
    match find(file_config, key) {
        None => Ok(None),
        Some(value) => match T::from_toml(&value) {
            None => Err(ConfigError::FileValue { key }),
            Some(value) => Ok(Some((value, ValueSource::ConfigFile))),
        },
    }
}

/// Reads the list of settings under a dotted key.
pub fn get_list_from_file_config<T: ListItem>(
    file_config: &toml::Table,
    key: &'static str,
) -> (outcome: Result<Option<(Vec<T>, ValueSource)>, ConfigError>)
    ensures
        read_from_file(
            outcome,
            fitted(value_under(entries_of(*file_config), key@), |tree: Tree| list_of::<T>(tree)),
            key,
        ),
{
    match find(file_config, key) {
        None => Ok(None),
        Some(value) => match open_value(&value) {
            Node::Array(items) => match read_texts(&items) {
                None => Err(ConfigError::FileValue { key }),
                Some(texts) => match read_items::<T>(&texts) {
                    None => Err(ConfigError::FileValue { key }),
                    Some(values) => Ok(Some((values, ValueSource::ConfigFile))),
                },
            },
            _ => Err(ConfigError::FileValue { key }),
        },
    }
}

/// Reads all values of an array as texts, if they can all be read so.
fn read_texts(items: &Vec<TomlValue>) -> (texts: Option<Vec<String>>)
    ensures
        match texts {
            Some(texts) => texts_of(items@.map_values(|item: TomlValue| tree_of(item))) == Some(
                texts.deep_view(),
            ),
            None => texts_of(items@.map_values(|item: TomlValue| tree_of(item))) is None,
        },
{
    let ghost trees = items@.map_values(|item: TomlValue| tree_of(item));
    let mut texts: Vec<String> = Vec::new();
    let mut at: usize = 0;
    while at < items.len()
        invariant
            at <= items.len(),
            texts.len() == at,
            trees == items@.map_values(|item: TomlValue| tree_of(item)),
            forall|i: int| 0 <= i < at ==> text_of(#[trigger] trees[i]) == Some(texts[i]@),
        decreases items.len() - at,
    {
        match read_text(&items[at]) {
            None => {
                assert(text_of(trees[at as int]) is None);
                return None;
            },
            Some(text) => {
                texts.push(text);
            },
        }
        at = at + 1;
    }
    assert(texts.deep_view() =~= trees.map_values(|item: Tree| text_of(item)->0));
    Some(texts)
}

/// What a knob starts from: it can be read from the arguments, and it has a default.
pub trait ArgumentSeed {
    type Output: DeepView;

    /// What there is of the argument.
    spec fn in_arguments(matches: clap::ArgMatches, id: &'static str) -> Lookup<
        <Self::Output as DeepView>::V,
    >;

    /// The default.
    spec fn initial(&self) -> <Self::Output as DeepView>::V;

    /// Reads the argument.
    fn read_from_args(matches: &clap::ArgMatches, id: &'static str) -> (outcome: Result<
        Option<(Self::Output, ValueSource)>,
        ConfigError,
    >)
        ensures
            read_from_arguments(outcome, Self::in_arguments(*matches, id)),
    ;

    /// Makes the default.
    fn make_from_default_seed(&self) -> (made: (Self::Output, ValueSource))
        ensures
            made.0.deep_view() == self.initial(),
            made.1 == ValueSource::Default,
    ;
}

/// What a knob starts from, if it can also be read from the configuration file.
pub trait ValueSeed: ArgumentSeed {
    /// The value that a TOML value holds, if it fits.
    spec fn in_tree(tree: Tree) -> Option<<Self::Output as DeepView>::V>;

    /// Reads the setting under a dotted key.
    fn read_from_file(file_config: &toml::Table, key: &'static str) -> (outcome: Result<
        Option<(Self::Output, ValueSource)>,
        ConfigError,
    >)
        ensures
            read_from_file(
                outcome,
                fitted(
                    value_under(entries_of(*file_config), key@),
                    |tree: Tree| Self::in_tree(tree),
                ),
                key,
            ),
    ;
}

/// A knob that always has a value.
#[derive(Debug, PartialEq, Eq, PartialOrd, Ord, Hash)]
pub struct Simple<T>(pub T);

/// A knob with any number of values, none to start with.
#[derive(Debug)]
pub struct Many<T>(pub PhantomData<T>);

impl<T: ArgumentValue> ArgumentSeed for Simple<T> {
    type Output = T;

    open spec fn in_arguments(matches: clap::ArgMatches, id: &'static str) -> Lookup<
        <T as DeepView>::V,
    > {
        one_argument::<T>(matches, id)
    }

    open spec fn initial(&self) -> <T as DeepView>::V {
        self.0.deep_view()
    }

    fn read_from_args(matches: &clap::ArgMatches, id: &'static str) -> (outcome: Result<
        Option<(T, ValueSource)>,
        ConfigError,
    >) {
        get_one::<T>(matches, id)
    }

    fn make_from_default_seed(&self) -> (made: (T, ValueSource)) {
        (self.0.duplicate(), ValueSource::Default)
    }
}

impl<T: FileValue> ValueSeed for Simple<T> {
    open spec fn in_tree(tree: Tree) -> Option<<T as DeepView>::V> {
        T::of_tree(tree)
    }

    fn read_from_file(file_config: &toml::Table, key: &'static str) -> (outcome: Result<
        Option<(T, ValueSource)>,
        ConfigError,
    >) {
        get_from_file_config::<T>(file_config, key)
    }
}

impl<T: ArgumentValue> ArgumentSeed for Option<T> {
    type Output = Option<T>;

    open spec fn in_arguments(matches: clap::ArgMatches, id: &'static str) -> Lookup<
        Option<<T as DeepView>::V>,
    > {
        one_argument::<T>(matches, id).mapped(|value: <T as DeepView>::V| Some(value))
    }

    open spec fn initial(&self) -> Option<<T as DeepView>::V> {
        self.deep_view()
    }

    fn read_from_args(matches: &clap::ArgMatches, id: &'static str) -> (outcome: Result<
        Option<(Option<T>, ValueSource)>,
        ConfigError,
    >) {
        match get_one::<T>(matches, id) {
            Err(error) => Err(error),
            Ok(None) => Ok(None),
            Ok(Some((value, source))) => Ok(Some((Some(value), source))),
        }
    }

    fn make_from_default_seed(&self) -> (made: (Option<T>, ValueSource)) {
        let value: Option<T> = match self {
            Some(value) => Some(value.duplicate()),
            None => None,
        };
        (value, ValueSource::Default)
    }
}

impl<T: FileValue> ValueSeed for Option<T> {
    open spec fn in_tree(tree: Tree) -> Option<Option<<T as DeepView>::V>> {
        match T::of_tree(tree) {
            Some(value) => Some(Some(value)),
            None => None,
        }
    }

    fn read_from_file(file_config: &toml::Table, key: &'static str) -> (outcome: Result<
        Option<(Option<T>, ValueSource)>,
        ConfigError,
    >) {
        match get_from_file_config::<T>(file_config, key) {
            Err(error) => Err(error),
            Ok(None) => Ok(None),
            Ok(Some((value, source))) => Ok(Some((Some(value), source))),
        }
    }
}

impl<T: ListItem> ArgumentSeed for Many<T> {
    type Output = Vec<T>;

    open spec fn in_arguments(matches: clap::ArgMatches, id: &'static str) -> Lookup<
        Seq<<T as DeepView>::V>,
    > {
        many_arguments::<T>(matches, id)
    }

    open spec fn initial(&self) -> Seq<<T as DeepView>::V> {
        Seq::empty()
    }

    fn read_from_args(matches: &clap::ArgMatches, id: &'static str) -> (outcome: Result<
        Option<(Vec<T>, ValueSource)>,
        ConfigError,
    >) {
        get_many::<T>(matches, id)
    }

    fn make_from_default_seed(&self) -> (made: (Vec<T>, ValueSource)) {
        let value: Vec<T> = Vec::new();
        assert(value.deep_view() =~= Seq::empty());
        (value, ValueSource::Default)
    }
}

impl<T: ListItem> ValueSeed for Many<T> {
    open spec fn in_tree(tree: Tree) -> Option<Seq<<T as DeepView>::V>> {
        list_of::<T>(tree)
    }

    fn read_from_file(file_config: &toml::Table, key: &'static str) -> (outcome: Result<
        Option<(Vec<T>, ValueSource)>,
        ConfigError,
    >) {
        get_list_from_file_config::<T>(file_config, key)
    }
}

impl ArgumentSeed for &'static str {
    type Output = String;

    open spec fn in_arguments(matches: clap::ArgMatches, id: &'static str) -> Lookup<Seq<char>> {
        one_argument::<String>(matches, id)
    }

    open spec fn initial(&self) -> Seq<char> {
        self@
    }

    fn read_from_args(matches: &clap::ArgMatches, id: &'static str) -> (outcome: Result<
        Option<(String, ValueSource)>,
        ConfigError,
    >) {
        get_one::<String>(matches, id)
    }

    fn make_from_default_seed(&self) -> (made: (String, ValueSource)) {
        ((*self).to_owned(), ValueSource::Default)
    }
}

impl ValueSeed for &'static str {
    open spec fn in_tree(tree: Tree) -> Option<Seq<char>> {
        <String as FileValue>::of_tree(tree)
    }

    fn read_from_file(file_config: &toml::Table, key: &'static str) -> (outcome: Result<
        Option<(String, ValueSource)>,
        ConfigError,
    >) {
        get_from_file_config::<String>(file_config, key)
    }
}

/// How the value of an argument is read.
#[derive(Debug, Clone, Copy, PartialEq, Eq)]
pub enum Kind {
    Flag,
    Port,
    Count,
    Text,
    Path,
    Url,
    Size,
    Span,
    Mode,
    Root,
    Level,
    Format,
    Symlinks,
    Ip,
    Socket,
}

/// What a repeated argument does.
#[derive(Debug, Clone, Copy, PartialEq, Eq)]
pub enum Action {
    /// It may not be repeated.
    Single,
    /// It adds a value.
    Append,
}

/// Descriptor for a single configuration knob.
#[derive(Debug)]
pub struct Parameter<S> {
    pub id: &'static str,
    pub argument: &'static str,
    pub environment: &'static str,
    pub toml: Option<&'static str>,
    pub default: S,
    pub sensitive: bool,
    pub kind: Kind,
    pub action: Action,
}

/// An argument of the command line.
#[derive(Debug, Clone, Copy)]
pub struct ArgSpec {
    pub id: &'static str,
    pub long: &'static str,
    pub environment: &'static str,
    pub required: bool,
    pub kind: Kind,
    pub action: Action,
}

/// What the knob comes to: an argument comes before the configuration file, and the file before
/// the default.
pub open spec fn settled<V>(
    in_arguments: Lookup<V>,
    in_file: FileLookup<V>,
    initial: V,
    toml: Option<&'static str>,
) -> Result<(V, ValueSource), ConfigError> {
    match in_arguments {
        Lookup::Found(value, source) => Ok((value, source)),
        Lookup::Wrong(error) => Err(error),
        Lookup::Absent => match in_file {
            FileLookup::Found(value) => Ok((value, ValueSource::ConfigFile)),
            FileLookup::Mismatch => Err(ConfigError::FileValue { key: toml->0 }),
            FileLookup::Absent => Ok((initial, ValueSource::Default)),
        },
    }
}

/// The entries of the configuration file, if there is one.
pub open spec fn file_entries(file_config: Option<&toml::Table>) -> Option<Map<Seq<char>, Tree>> {
    match file_config {
        Some(table) => Some(entries_of(*table)),
        None => None,
    }
}

impl<S> Parameter<S> {
    /// The argument that sets the knob.
    pub fn to_arg(&self) -> (arg: ArgSpec)
        ensures
            arg.id == self.id,
            arg.long@ == without_leading_dashes(self.argument@),
            arg.environment == self.environment,
            !arg.required,
            arg.kind == self.kind,
            arg.action == self.action,
    {
        ArgSpec {
            id: self.id,
            long: strip_leading_dashes(self.argument),
            environment: self.environment,
            required: false,
            kind: self.kind,
            action: self.action,
        }
    }

    /// The value with the names of the knob.
    pub open spec fn named<T>(self, value: T, source: ValueSource) -> Value<T> {
        Value {
            value,
            source,
            id: self.id,
            toml: self.toml,
            argument: self.argument,
            environment: self.environment,
            sensitive: self.sensitive,
        }
    }
}

impl<S: ArgumentSeed> Parameter<S> {
    /// What the knob comes to, where `in_file` is what there is of it in the configuration file.
    pub open spec fn expected_with(
        self,
        matches: clap::ArgMatches,
        in_file: FileLookup<<S::Output as DeepView>::V>,
    ) -> Result<(<S::Output as DeepView>::V, ValueSource), ConfigError> {
        settled(
            S::in_arguments(matches, self.id),
            if self.toml is Some {
                in_file
            } else {
                FileLookup::Absent
            },
            self.default.initial(),
            self.toml,
        )
    }
}

/// Whether a value is the one expected, with the names of the knob.
pub open spec fn holds<S, T: DeepView>(
    value: Value<T>,
    parameter: Parameter<S>,
    expected: Result<(T::V, ValueSource), ConfigError>,
) -> bool {
    &&& expected == Ok::<(T::V, ValueSource), ConfigError>((value.value.deep_view(), value.source))
    &&& value == parameter.named(value.value, value.source)
}

/// Whether an outcome is the one expected, with the names of the knob.
pub open spec fn comes_to<S, T: DeepView>(
    outcome: Result<Value<T>, ConfigError>,
    parameter: Parameter<S>,
    expected: Result<(T::V, ValueSource), ConfigError>,
) -> bool {
    match outcome {
        Ok(value) => holds(value, parameter, expected),
        Err(error) => expected == Err::<(T::V, ValueSource), ConfigError>(error),
    }
}

impl<S: ValueSeed> Parameter<S> {
    /// What there is of the knob in the configuration file.
    pub open spec fn in_file(self, entries: Option<Map<Seq<char>, Tree>>) -> FileLookup<
        <S::Output as DeepView>::V,
    > {
        match (entries, self.toml) {
            (Some(entries), Some(key)) => fitted(
                value_under(entries, key@),
                |tree: Tree| S::in_tree(tree),
            ),
            _ => FileLookup::Absent,
        }
    }

    /// What the knob comes to.
    pub open spec fn expected(
        self,
        matches: clap::ArgMatches,
        entries: Option<Map<Seq<char>, Tree>>,
    ) -> Result<(<S::Output as DeepView>::V, ValueSource), ConfigError> {
        self.expected_with(matches, self.in_file(entries))
    }

    /// Finds the value of the knob and names it.
    pub fn resolve(
        &self,
        arguments: &clap::ArgMatches,
        file_config: Option<&toml::Table>,
    ) -> (outcome: Result<Value<S::Output>, ConfigError>)
        ensures
            comes_to(outcome, *self, self.expected(*arguments, file_entries(file_config))),
    {
        match self.resolve_value(arguments, file_config) {
            Err(error) => Err(error),
            Ok((value, source)) => Ok(self.name(value, source)),
        }
    }

    /// Finds the value of the knob.
    pub fn resolve_value(
        &self,
        arguments: &clap::ArgMatches,
        file_config: Option<&toml::Table>,
    ) -> (outcome: Result<(S::Output, ValueSource), ConfigError>)
        ensures
            match outcome {
                Ok((value, source)) => self.expected(*arguments, file_entries(file_config)) == Ok::<
                    (<S::Output as DeepView>::V, ValueSource),
                    ConfigError,
                >((value.deep_view(), source)),
                Err(error) => self.expected(*arguments, file_entries(file_config)) == Err::<
                    (<S::Output as DeepView>::V, ValueSource),
                    ConfigError,
                >(error),
            },
    {
        match S::read_from_args(arguments, self.id) {
            Err(error) => return Err(error),
            Ok(Some(found)) => return Ok(found),
            Ok(None) => {},
        }
        if let (Some(table), Some(key)) = (file_config, self.toml) {
            match S::read_from_file(table, key) {
                Err(error) => return Err(error),
                Ok(Some(found)) => return Ok(found),
                Ok(None) => {},
            }
        }
        Ok(self.default.make_from_default_seed())
    }
}

impl<S> Parameter<S> {
    /// Names a value.
    pub fn name<T>(&self, value: T, source: ValueSource) -> (named: Value<T>)
        ensures
            named == self.named(value, source),
    {
        Value {
            value,
            source,
            id: self.id,
            toml: self.toml,
            argument: self.argument,
            environment: self.environment,
            sensitive: self.sensitive,
        }
    }
}

impl<T: ArgumentValue + Copy> Parameter<Simple<T>> {
    /// Finds the value of a knob whose value in the configuration file has been read already.
    pub fn resolve_with(&self, arguments: &clap::ArgMatches, in_file: FileLookup<T>) -> (outcome:
        Result<Value<T>, ConfigError>)
        ensures
            comes_to(
                outcome,
                *self,
                self.expected_with(*arguments, viewed(in_file)),
            ),
    {
        match Simple::<T>::read_from_args(arguments, self.id) {
            Err(error) => return Err(error),
            Ok(Some((value, source))) => return Ok(self.name(value, source)),
            Ok(None) => {},
        }
        if let Some(key) = self.toml {
            match in_file {
                FileLookup::Mismatch => return Err(ConfigError::FileValue { key }),
                FileLookup::Found(value) => return Ok(self.name(value, ValueSource::ConfigFile)),
                FileLookup::Absent => {},
            }
        }
        let (value, source) = self.default.make_from_default_seed();
        Ok(self.name(value, source))
    }
}

/// An argument decides alone: whatever the configuration file holds, a knob that was set on the
/// command line or in the environment keeps that value.
pub proof fn law_arguments_take_precedence<S: ValueSeed>(
    parameter: Parameter<S>,
    matches: clap::ArgMatches,
    entries: Option<Map<Seq<char>, Tree>>,
    others: Option<Map<Seq<char>, Tree>>,
)
    requires
        !(S::in_arguments(matches, parameter.id) is Absent),
    ensures
        parameter.expected(matches, entries) == parameter.expected(matches, others),
        parameter.expected(matches, entries) matches Ok((value, source)) ==> S::in_arguments(
            matches,
            parameter.id,
        ) == Lookup::Found(value, source),
{
}

/// The configuration file comes before the default: a knob that no argument sets takes the value
/// of the file where there is one, and its default where there is none.
pub proof fn law_file_comes_before_default<S: ValueSeed>(
    parameter: Parameter<S>,
    matches: clap::ArgMatches,
    entries: Option<Map<Seq<char>, Tree>>,
)
    requires
        S::in_arguments(matches, parameter.id) is Absent,
    ensures
        parameter.in_file(entries) matches FileLookup::Found(value) ==> parameter.expected(
            matches,
            entries,
        ) == Ok::<(<S::Output as DeepView>::V, ValueSource), ConfigError>(
            (value, ValueSource::ConfigFile),
        ),
        parameter.in_file(entries) is Absent ==> parameter.expected(matches, entries) == Ok::<
            (<S::Output as DeepView>::V, ValueSource),
            ConfigError,
        >((parameter.default.initial(), ValueSource::Default)),
{
}

} // verus!
