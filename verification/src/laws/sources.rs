//! The command line comes before the environment, the environment before the configuration file,
//! and the configuration file before the default.
use crate::arguments::{
    all_texts, found_arguments, get_many, get_one, listed, refused_arguments, Origin,
};
use crate::error::ConfigError;
use crate::file::{entries_of, value_under, Node, Tree};
use crate::parameter::{FileLookup, Many, Parameter, Simple, ValueSeed};
use crate::setting::{all_items, ArgumentValue, FileValue, ListItem, SettingView};
use crate::text::{lemma_halves, lemma_no_halves, segments};
use crate::value::{Value, ValueSource};
use vstd::prelude::*;

verus! {

/// The source of a value that the parser has from here.
pub open spec fn source_of(origin: Origin) -> ValueSource {
    match origin {
        Origin::CommandLine => ValueSource::Argument,
        Origin::EnvVariable => ValueSource::Environment,
        _ => ValueSource::Default,
    }
}

/// The first value that the parser has found for an argument, and where it has it from.
pub open spec fn given(matches: clap::ArgMatches, id: Seq<char>) -> Option<
    (SettingView, Option<Origin>),
> {
    let found = found_arguments(matches);
    if found.contains_key(id) && found[id].0.len() > 0 {
        Some((found[id].0[0], found[id].1))
    } else {
        None
    }
}

/// The entries of the configuration file, if there is one.
pub open spec fn entries_in(file_config: Option<&toml::Table>) -> Option<Map<Seq<char>, Tree>> {
    match file_config {
        Some(table) => Some(entries_of(*table)),
        None => None,
    }
}

/// What the configuration file holds under a key, if there is a file and a key.
pub open spec fn in_file(
    entries: Option<Map<Seq<char>, Tree>>,
    key: Option<&'static str>,
) -> Option<Tree> {
    match (entries, key) {
        (Some(entries), Some(key)) => value_under(entries, key@),
        _ => None,
    }
}

/// What is wrong with an argument that has one value, if anything.
pub open spec fn wrong_argument<T: ArgumentValue>(
    matches: clap::ArgMatches,
    id: &'static str,
) -> Option<ConfigError> {
    if refused_arguments(matches).contains_key(id@) {
        Some(ConfigError::ArgumentLookup { id })
    } else {
        match given(matches, id@) {
            None => None,
            Some((setting, origin)) => if T::of_setting(setting) is None {
                Some(ConfigError::ArgumentLookup { id })
            } else if origin is None {
                Some(ConfigError::ArgumentSource { id })
            } else {
                None
            },
        }
    }
}

/// An argument with one value is read as it was given, with the source that it was given in. It is
/// absent only where nothing was given, and an error comes only of something that is wrong.
pub proof fn law_argument_is_read_as_given<T: ArgumentValue>(
    matches: &clap::ArgMatches,
    id: &'static str,
    outcome: Result<Option<(T, ValueSource)>, ConfigError>,
)
    requires
        call_ensures(get_one::<T>, (matches, id), outcome),
    ensures
        outcome matches Err(error) ==> wrong_argument::<T>(*matches, id) == Some(error),
        wrong_argument::<T>(*matches, id) matches Some(error) ==> outcome == Err::<
            Option<(T, ValueSource)>,
            ConfigError,
        >(error),
        outcome matches Ok(None) ==> given(*matches, id@) is None,
        outcome matches Ok(Some((value, source))) ==> (given(*matches, id@) matches Some(
            (setting, Some(origin)),
        ) && T::of_setting(setting) == Some(value.deep_view()) && source == source_of(origin)),
{
}

/// The texts of an argument whose values are a list: those of a variable are what stands between
/// its commas.
pub open spec fn items_given(texts: Seq<Seq<char>>, origin: Option<Origin>) -> Seq<Seq<char>>
    decreases texts.len(),
{
    if texts.len() == 0 {
        Seq::empty()
    } else if origin == Some(Origin::EnvVariable) {
        items_given(texts.drop_last(), origin) + segments(texts.last(), ',')
    } else {
        items_given(texts.drop_last(), origin).push(texts.last())
    }
}

/// Settings that hold texts.
pub open spec fn settings_of(texts: Seq<Seq<char>>) -> Seq<SettingView> {
    Seq::new(texts.len(), |i: int| SettingView::Text(texts[i]))
}

/// The items are those that the reading of arguments goes by.
pub proof fn lemma_items(texts: Seq<Seq<char>>, origin: Option<Origin>)
    ensures
        items_given(texts, origin) == listed(texts, origin),
    decreases texts.len(),
{
    if texts.len() > 0 {
        lemma_items(texts.drop_last(), origin);
        if origin != Some(Origin::EnvVariable) {
            assert(texts.drop_last().push(texts.last()) =~= texts);
        }
    } else if origin != Some(Origin::EnvVariable) {
        assert(texts =~= Seq::empty());
    }
}

/// An argument whose values are a list is read item by item, in the order given, with the source
/// that it was given in. It is absent only where nothing was given.
pub proof fn law_list_is_read_as_given<T: ListItem>(
    matches: &clap::ArgMatches,
    id: &'static str,
    outcome: Result<Option<(Vec<T>, ValueSource)>, ConfigError>,
    texts: Seq<Seq<char>>,
    origin: Option<Origin>,
)
    requires
        call_ensures(get_many::<T>, (matches, id), outcome),
    ensures
        refused_arguments(*matches).contains_key(id@) <==> (outcome matches Err(
            ConfigError::ArgumentList { .. },
        )),
        outcome matches Err(ConfigError::ArgumentList { text }) ==> text == refused_arguments(
            *matches,
        )[id@],
        !refused_arguments(*matches).contains_key(id@) ==> {
            &&& (outcome matches Ok(None)) <==> !found_arguments(*matches).contains_key(id@)
            &&& found_arguments(*matches).contains_key(id@) && found_arguments(*matches)[id@] == (
                settings_of(texts),
                origin,
            ) ==> match outcome {
                Ok(Some((items, source))) => {
                    &&& origin matches Some(from) && source == source_of(from)
                    &&& items@.len() == items_given(texts, origin).len()
                    &&& forall|i: int|
                        0 <= i < items@.len() ==> T::of_text(#[trigger] items_given(texts, origin)[i])
                            == Some(items@[i].deep_view())
                },
                Ok(None) => false,
                Err(error) => {
                    ||| error == ConfigError::ArgumentItem { id } && exists|i: int|
                        0 <= i < items_given(texts, origin).len() && T::of_text(
                            #[trigger] items_given(texts, origin)[i],
                        ) is None
                    ||| error == ConfigError::ArgumentSource { id } && origin is None
                },
            }
        },
{
    let settings = settings_of(texts);
    let items = items_given(texts, origin);
    lemma_items(texts, origin);
    assert(all_texts(settings) == Some(texts)) by {
        assert(settings.map_values(|setting: SettingView| setting->Text_0) =~= texts);
    }
    if found_arguments(*matches).contains_key(id@) && found_arguments(*matches)[id@] == (
        settings,
        origin,
    ) && !refused_arguments(*matches).contains_key(id@) {
        match all_items::<T>(items) {
            None => {},
            Some(values) => {
                assert(values.len() == items.len());
                assert forall|i: int| 0 <= i < items.len() implies T::of_text(#[trigger] items[i])
                    == Some(values[i]) by {}
                if let Ok(Some((read, _))) = outcome {
                    assert(read.deep_view() == values);
                    assert forall|i: int| 0 <= i < read@.len() implies T::of_text(
                        #[trigger] items[i],
                    ) == Some(read@[i].deep_view()) by {
                        assert(read.deep_view()[i] == read@[i].deep_view());
                    }
                }
            },
        }
    }
}

/// The items of a variable stand between its commas, one after the other; on the command line
/// every item is given by itself.
pub proof fn law_items_stand_between_commas(item: Seq<char>, rest: Seq<char>, texts: Seq<Seq<char>>)
    requires
        forall|i: int| 0 <= i < item.len() ==> item[i] != ',',
    ensures
        items_given(seq![item], Some(Origin::EnvVariable)) == seq![item],
        items_given(seq![item + seq![','] + rest], Some(Origin::EnvVariable)) == seq![item]
            + items_given(seq![rest], Some(Origin::EnvVariable)),
        items_given(texts, Some(Origin::CommandLine)) == texts,
{
    let whole = item + seq![','] + rest;
    lemma_no_halves(item, ',');
    lemma_halves(item, rest, ',');
    lemma_items(texts, Some(Origin::CommandLine));
    assert forall|text: Seq<char>| #[trigger]
        items_given(seq![text], Some(Origin::EnvVariable)) == segments(text, ',') by {
        assert(seq![text].drop_last() =~= Seq::empty());
        assert(items_given(Seq::empty(), Some(Origin::EnvVariable)) =~= Seq::empty());
        assert(Seq::empty() + segments(text, ',') =~= segments(text, ','));
    }
    assert(items_given(seq![whole], Some(Origin::EnvVariable)) == segments(whole, ','));
    assert(items_given(seq![rest], Some(Origin::EnvVariable)) == segments(rest, ','));
    assert(items_given(seq![item], Some(Origin::EnvVariable)) == segments(item, ','));
}

/// Sources have a fixed order, and origins have their sources.
pub proof fn law_order_of_sources(origin: Origin, left: ValueSource, right: ValueSource, answer: bool)
    requires
        call_ensures(ValueSource::outranks, (left, right), answer),
    ensures
        origin.source() == source_of(origin),
        answer == over(left, right),
        answer == (left.rank() > right.rank()),
{
}

/// Whether a source comes before another one.
pub open spec fn over(left: ValueSource, right: ValueSource) -> bool {
    match left {
        ValueSource::Argument => right != ValueSource::Argument,
        ValueSource::Environment => right == ValueSource::ConfigFile || right
            == ValueSource::Default,
        ValueSource::ConfigFile => right == ValueSource::Default,
        ValueSource::Default => false,
    }
}

} // verus!
