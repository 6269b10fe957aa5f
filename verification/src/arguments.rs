//! What the command line and the environment have set.
use crate::error::ConfigError;
use crate::setting::{all_items, read_items, ArgumentValue, ListItem, Setting, SettingView};
use crate::text::{lemma_halves, lemma_no_halves, segments, split};
use crate::value::ValueSource;
use vstd::prelude::*;

verus! {

/// `clap::ArgMatches`: what the command line parser has found. Its content is that of
/// `found_arguments` and `refused_arguments`.
#[verifier::external_type_specification]
#[verifier::external_body]
pub struct ExArgMatches(clap::ArgMatches);

/// Where the command line parser has a value from.
#[derive(Debug, Clone, Copy, PartialEq, Eq, Structural)]
pub enum Origin {
    DefaultValue,
    EnvVariable,
    CommandLine,
    Other,
}

impl Origin {
    /// The source that the origin stands for.
    #[verifier::allow_in_spec]
    pub fn source(self) -> ValueSource
        returns
            (match self {
                Origin::EnvVariable => ValueSource::Environment,
                Origin::CommandLine => ValueSource::Argument,
                Origin::DefaultValue | Origin::Other => ValueSource::Default,
            }),
    {
        match self {
            Origin::EnvVariable => ValueSource::Environment,
            Origin::CommandLine => ValueSource::Argument,
            Origin::DefaultValue | Origin::Other => ValueSource::Default,
        }
    }
}

/// The arguments that were found and hold settings: their values in order, and their origin.
pub uninterp spec fn found_arguments(matches: clap::ArgMatches) -> Map<
    Seq<char>,
    (Seq<SettingView>, Option<Origin>),
>;

/// The arguments that the parser refuses to give settings for, with what it says of them: those that
/// were found and hold something else, and, where it keeps track of the arguments of the command,
/// as it does with debug assertions, those that the command does not have.
pub uninterp spec fn refused_arguments(matches: clap::ArgMatches) -> Map<Seq<char>, String>;

/// Calls `clap::ArgMatches::try_get_one` and clones what it finds, or shows the error.
///
/// Trusted: it gives the first value of an argument that was found, nothing for one without a
/// value, and an error exactly for one that is refused. The text of the error is that of its
/// `Display`.
#[verifier::external_body]
fn try_get_one(matches: &clap::ArgMatches, id: &str) -> (outcome: Result<Option<Setting>, String>)
    ensures
        match outcome {
            Ok(Some(setting)) => found_arguments(*matches).contains_key(id@) && found_arguments(
                *matches,
            )[id@].0.len() > 0 && setting@ == found_arguments(*matches)[id@].0[0],
            Ok(None) => found_arguments(*matches).contains_key(id@) ==> found_arguments(
                *matches,
            )[id@].0.len() == 0,
            Err(text) => !found_arguments(*matches).contains_key(id@) && text == refused_arguments(
                *matches,
            )[id@],
        },
        refused_arguments(*matches).contains_key(id@) == (outcome is Err),
{
    matches.try_get_one::<Setting>(id).map(|found| found.cloned()).map_err(
        |error| error.to_string(),
    )
}

/// Calls `clap::ArgMatches::try_get_many` and clones what it finds, or shows the error.
///
/// Trusted: it gives all values of an argument that was found, in their order, nothing for one
/// that was not, and the same errors as `try_get_one`.
#[verifier::external_body]
fn try_get_many(matches: &clap::ArgMatches, id: &str) -> (outcome: Result<
    Option<Vec<Setting>>,
    String,
>)
    ensures
        match outcome {
            Ok(Some(settings)) => found_arguments(*matches).contains_key(id@)
                && settings@.map_values(|setting: Setting| setting@) == found_arguments(
                *matches,
            )[id@].0,
            Ok(None) => !found_arguments(*matches).contains_key(id@),
            Err(text) => !found_arguments(*matches).contains_key(id@) && text == refused_arguments(
                *matches,
            )[id@],
        },
        refused_arguments(*matches).contains_key(id@) == (outcome is Err),
{
    matches.try_get_many::<Setting>(id).map(
        |found| found.map(|values| values.cloned().collect()),
    ).map_err(|error| error.to_string())
}

/// Calls `clap::ArgMatches::value_source`.
///
/// Trusted: it gives the origin of an argument that was found. It can panic for others.
#[verifier::external_body]
fn value_source(matches: &clap::ArgMatches, id: &str) -> (origin: Option<Origin>)
    requires
        found_arguments(*matches).contains_key(id@),
    ensures
        origin == found_arguments(*matches)[id@].1,
{
    matches.value_source(id).map(
        |source|
            match source {
                clap::parser::ValueSource::DefaultValue => Origin::DefaultValue,
                clap::parser::ValueSource::EnvVariable => Origin::EnvVariable,
                clap::parser::ValueSource::CommandLine => Origin::CommandLine,
                _ => Origin::Other,
            },
    )
}

/// What there is of an argument.
pub enum Lookup<V> {
    /// Nothing.
    Absent,
    /// Something that is wrong.
    Wrong(ConfigError),
    /// A value.
    Found(V, ValueSource),
}

impl<V> Lookup<V> {
    /// The same lookup of another value.
    pub open spec fn mapped<W>(self, f: spec_fn(V) -> W) -> Lookup<W> {
        match self {
            Lookup::Absent => Lookup::Absent,
            Lookup::Wrong(error) => Lookup::Wrong(error),
            Lookup::Found(value, source) => Lookup::Found(f(value), source),
        }
    }
}

/// What the lookup of a value comes to.
pub open spec fn sourced<V>(value: V, origin: Option<Origin>, id: &'static str) -> Lookup<V> {
    match origin {
        None => Lookup::Wrong(ConfigError::ArgumentSource { id }),
        Some(origin) => Lookup::Found(value, origin.source()),
    }
}

/// What there is of an argument with one value.
pub open spec fn one_argument<T: ArgumentValue>(
    matches: clap::ArgMatches,
    id: &'static str,
) -> Lookup<<T as DeepView>::V> {
    if refused_arguments(matches).contains_key(id@) {
        Lookup::Wrong(ConfigError::ArgumentLookup { id })
    } else if found_arguments(matches).contains_key(id@) && found_arguments(matches)[id@].0.len()
        > 0 {
        let (settings, origin) = found_arguments(matches)[id@];
        match T::of_setting(settings[0]) {
            None => Lookup::Wrong(ConfigError::ArgumentLookup { id }),
            Some(value) => sourced(value, origin, id),
        }
    } else {
        Lookup::Absent
    }
}

/// What separates the items of a list in an environment variable.
pub const LIST_SEPARATOR: char = ',';

/// The texts that all the settings hold, if they all hold one.
pub open spec fn all_texts(settings: Seq<SettingView>) -> Option<Seq<Seq<char>>> {
    if forall|i: int| 0 <= i < settings.len() ==> #[trigger] settings[i] is Text {
        Some(settings.map_values(|setting: SettingView| setting->Text_0))
    } else {
        None
    }
}

/// The parts of all the texts between their separators.
pub open spec fn all_parts(texts: Seq<Seq<char>>) -> Seq<Seq<char>>
    decreases texts.len(),
{
    if texts.len() == 0 {
        Seq::empty()
    } else {
        all_parts(texts.drop_last()) + segments(texts.last(), LIST_SEPARATOR)
    }
}

/// The items of a list. An argument on the command line holds one each time that it is given, and
/// an environment variable holds them all.
pub open spec fn listed(texts: Seq<Seq<char>>, origin: Option<Origin>) -> Seq<Seq<char>> {
    if origin == Some(Origin::EnvVariable) {
        all_parts(texts)
    } else {
        texts
    }
}

/// What there is of an argument with a list of values.
pub open spec fn many_arguments<T: ListItem>(
    matches: clap::ArgMatches,
    id: &'static str,
) -> Lookup<Seq<<T as DeepView>::V>> {
    if refused_arguments(matches).contains_key(id@) {
        Lookup::Wrong(ConfigError::ArgumentList { text: refused_arguments(matches)[id@] })
    } else if found_arguments(matches).contains_key(id@) {
        let (settings, origin) = found_arguments(matches)[id@];
        match all_texts(settings) {
            None => Lookup::Wrong(ConfigError::ArgumentItem { id }),
            Some(texts) => match all_items::<T>(listed(texts, origin)) {
                None => Lookup::Wrong(ConfigError::ArgumentItem { id }),
                Some(items) => sourced(items, origin, id),
            },
        }
    } else {
        Lookup::Absent
    }
}

/// What reading an argument comes to, where `lookup` is what there is of it.
pub open spec fn read_from_arguments<T: DeepView>(
    outcome: Result<Option<(T, ValueSource)>, ConfigError>,
    lookup: Lookup<T::V>,
) -> bool {
    match outcome {
        Ok(None) => lookup is Absent,
        Ok(Some((value, source))) => lookup == Lookup::Found(value.deep_view(), source),
        Err(error) => lookup == Lookup::<T::V>::Wrong(error),
    }
}

/// Reads an argument with one value.
pub fn get_one<T: ArgumentValue>(matches: &clap::ArgMatches, id: &'static str) -> (outcome: Result<
    Option<(T, ValueSource)>,
    ConfigError,
>)
    ensures
        read_from_arguments(outcome, one_argument::<T>(*matches, id)),
{
    match try_get_one(matches, id) {
        Err(_) => Err(ConfigError::ArgumentLookup { id }),
        Ok(None) => Ok(None),
        Ok(Some(setting)) => match T::from_setting(setting) {
            None => Err(ConfigError::ArgumentLookup { id }),
            Some(value) => match value_source(matches, id) {
                None => Err(ConfigError::ArgumentSource { id }),
                Some(origin) => Ok(Some((value, origin.source()))),
            },
        },
    }
}

/// Reads an argument with a list of values.
pub fn get_many<T: ListItem>(matches: &clap::ArgMatches, id: &'static str) -> (outcome: Result<
    Option<(Vec<T>, ValueSource)>,
    ConfigError,
>)
    ensures
        read_from_arguments(outcome, many_arguments::<T>(*matches, id)),
{
    match try_get_many(matches, id) {
        Err(text) => Err(ConfigError::ArgumentList { text }),
        Ok(None) => Ok(None),
        Ok(Some(settings)) => {
            let texts: Vec<String> = match take_texts(settings) {
                None => return Err(ConfigError::ArgumentItem { id }),
                Some(texts) => texts,
            };
            let origin: Option<Origin> = value_source(matches, id);
            let listed: Vec<String> = match origin {
                Some(Origin::EnvVariable) => split_all(&texts),
                _ => texts,
            };
            match (read_items::<T>(&listed), origin) {
                (None, _) => Err(ConfigError::ArgumentItem { id }),
                (Some(_), None) => Err(ConfigError::ArgumentSource { id }),
                (Some(items), Some(origin)) => Ok(Some((items, origin.source()))),
            }
        },
    }
}

/// Takes the texts out of settings, if they all hold one.
fn take_texts(settings: Vec<Setting>) -> (texts: Option<Vec<String>>)
    ensures
        match texts {
            Some(texts) => all_texts(settings@.map_values(|setting: Setting| setting@)) == Some(
                texts.deep_view(),
            ),
            None => all_texts(settings@.map_values(|setting: Setting| setting@)) is None,
        },
{
    let ghost views = settings@.map_values(|setting: Setting| setting@);
    let mut texts: Vec<String> = Vec::new();
    let mut at: usize = 0;
    while at < settings.len()
        invariant
            at <= settings.len(),
            texts.len() == at,
            views == settings@.map_values(|setting: Setting| setting@),
            forall|i: int|
                0 <= i < at ==> (#[trigger] views[i] matches SettingView::Text(text) && text
                    == texts[i]@),
        decreases settings.len() - at,
    {
        assert(views[at as int] == settings[at as int]@);
        match &settings[at] {
            Setting::Text(text) => {
                texts.push(text.clone());
            },
            _ => {
                assert(!(views[at as int] is Text));
                return None;
            },
        }
        at = at + 1;
    }
    assert(texts.deep_view() =~= views.map_values(|setting: SettingView| setting->Text_0));
    Some(texts)
}

/// Splits all texts at their separators.
fn split_all(texts: &Vec<String>) -> (parts: Vec<String>)
    ensures
        parts.deep_view() == all_parts(texts.deep_view()),
{
    let mut parts: Vec<String> = Vec::new();
    let mut at: usize = 0;
    assert(parts.deep_view() =~= all_parts(texts.deep_view().take(0)));
    while at < texts.len()
        invariant
            at <= texts.len(),
            parts.deep_view() == all_parts(texts.deep_view().take(at as int)),
        decreases texts.len() - at,
    {
        let ghost before = parts.deep_view();
        let mut more: Vec<String> = split(texts[at].as_str(), LIST_SEPARATOR);
        let ghost added = more.deep_view();
        parts.append(&mut more);
        proof {
            let upto = texts.deep_view().take(at + 1);
            assert(upto.drop_last() =~= texts.deep_view().take(at as int));
            assert(upto.last() == texts[at as int]@);
            assert(parts.deep_view() =~= before + added);
        }
        at = at + 1;
    }
    assert(texts.deep_view().take(at as int) =~= texts.deep_view());
    parts
}

/// An environment variable holds the items of a list between commas: the first one stands before
/// the first comma, and the others are those of the rest.
pub proof fn law_variable_lists_items_between_commas(item: Seq<char>, rest: Seq<char>)
    requires
        forall|i: int| 0 <= i < item.len() ==> item[i] != LIST_SEPARATOR,
    ensures
        listed(seq![item], Some(Origin::EnvVariable)) == seq![item],
        listed(seq![item + seq![LIST_SEPARATOR] + rest], Some(Origin::EnvVariable)) == seq![item]
            + listed(seq![rest], Some(Origin::EnvVariable)),
{
    let whole = item + seq![LIST_SEPARATOR] + rest;
    lemma_no_halves(item, LIST_SEPARATOR);
    lemma_halves(item, rest, LIST_SEPARATOR);
    assert forall|text: Seq<char>| #[trigger] all_parts(seq![text]) == segments(
        text,
        LIST_SEPARATOR,
    ) by {
        assert(seq![text].drop_last() =~= Seq::empty());
        assert(all_parts(Seq::empty()) =~= Seq::empty());
        assert(Seq::empty() + segments(text, LIST_SEPARATOR) =~= segments(text, LIST_SEPARATOR));
    }
    assert(all_parts(seq![whole]) == segments(whole, LIST_SEPARATOR));
    assert(all_parts(seq![rest]) == segments(rest, LIST_SEPARATOR));
    assert(all_parts(seq![item]) == segments(item, LIST_SEPARATOR));
}

/// On the command line every item is an argument of its own: a comma in it has no meaning.
pub proof fn law_arguments_hold_one_item_each(texts: Seq<Seq<char>>)
    ensures
        listed(texts, Some(Origin::CommandLine)) == texts,
{
}

} // verus!
