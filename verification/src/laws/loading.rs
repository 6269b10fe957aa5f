//! The configuration file is looked up by dotted keys, and loaded with the arguments.
use crate::config::resolver::{Addresses, Resolver};
use crate::config::{config_file, load, loadable, looks_up, Config, LoadError};
use crate::error::ConfigError;
use crate::file::{entries_of, find, parsed_document, tree_of, value_under, Node, Tree};
use crate::laws::fields::{config_is_right, is_wrong, lemma_flaw, lemma_right};
use crate::laws::sources::{given, source_of, wrong_argument};
use crate::parameter::FileLookup;
use crate::path::FsPath;
use crate::scalars::{IpAddr, SocketAddr};
use crate::setting::ArgumentValue;
use crate::text::{lemma_halves, lemma_no_halves, lemma_segments_not_empty, segments};
use crate::value::{Value, ValueSource};
use toml::Value as TomlValue;
use vstd::prelude::*;

verus! {

/// A value that was opened holds what its variant carries.
pub proof fn law_opened_value_holds_what_it_carries(
    text: String,
    number: i64,
    items: Vec<TomlValue>,
    table: toml::Table,
    i: int,
)
    ensures
        Node::Text(text).tree() == Tree::Text(text@),
        Node::Datetime(text).tree() == Tree::Datetime(text@),
        Node::Integer(number).tree() == Tree::Integer(number),
        Node::Float.tree() == Tree::Float,
        Node::Boolean(true).tree() == Tree::Boolean(true),
        Node::Boolean(false).tree() == Tree::Boolean(false),
        Node::Array(items).tree() is Array,
        Node::Array(items).tree()->Array_0.len() == items@.len(),
        0 <= i < items@.len() ==> Node::Array(items).tree()->Array_0[i] == tree_of(items@[i]),
        Node::Table(table).tree() == Tree::Table(entries_of(table)),
{
}

/// What stands in a document under a key without dots is its entry. Under a key with dots it is
/// what stands under the rest of the key in the table that the first part names, and nothing where
/// it names none.
pub proof fn law_value_is_found_by_its_key(
    table: &toml::Table,
    key: &str,
    found: Option<TomlValue>,
    part: Seq<char>,
    rest: Seq<char>,
    inner: Map<Seq<char>, Tree>,
)
    requires
        call_ensures(find, (table, key), found),
        forall|i: int| 0 <= i < part.len() ==> part[i] != '.',
    ensures
        key@ == part ==> (found is Some <==> entries_of(*table).contains_key(part)),
        key@ == part ==> (found matches Some(value) ==> tree_of(value) == entries_of(*table)[part]),
        key@ == part + seq!['.'] + rest && found is Some ==> {
            &&& entries_of(*table).contains_key(part)
            &&& entries_of(*table)[part] matches Tree::Table(inside) && value_under(inside, rest)
                == Some(tree_of(found->0))
        },
        key@ == part + seq!['.'] + rest && found is None ==> (entries_of(*table).contains_key(part)
            && entries_of(*table)[part] == Tree::Table(inner) ==> value_under(inner, rest) is None),
        value_under(inner, part) == (if inner.contains_key(part) {
            Some(inner[part])
        } else {
            None
        }),
        value_under(inner, part + seq!['.'] + rest) == (if inner.contains_key(part) {
            match inner[part] {
                Tree::Table(inside) => value_under(inside, rest),
                _ => None,
            }
        } else {
            None
        }),
{
    lemma_no_halves(part, '.');
    lemma_halves(part, rest, '.');
    lemma_segments_not_empty(rest, '.');
    let path = segments(part + seq!['.'] + rest, '.');
    assert(path == seq![part] + segments(rest, '.'));
    assert(path.drop_first() =~= segments(rest, '.'));
    assert(path.first() == part);
}

/// The configuration file is named by the argument, where it is given, and by nothing else.
pub proof fn law_config_file_is_named_by_its_argument(
    arguments: &clap::ArgMatches,
    outcome: Result<Value<Option<FsPath>>, ConfigError>,
)
    requires
        call_ensures(config_file, (arguments,), outcome),
    ensures
        outcome matches Err(error) ==> wrong_argument::<FsPath>(*arguments, "config_file") == Some(
            error,
        ),
        outcome is Ok <==> wrong_argument::<FsPath>(*arguments, "config_file") is None,
        outcome matches Ok(file) ==> {
            &&& file.id == "config_file"
            &&& file.argument == "--config-file"
            &&& file.environment == "NETIXFS_CONFIG_FILE"
            &&& file.toml is None
            &&& !file.sensitive
            &&& match given(*arguments, "config_file"@) {
                Some((setting, origin)) => {
                    &&& file.value matches Some(path) && <FsPath as ArgumentValue>::of_setting(
                        setting,
                    ) == Some(path.bytes@)
                    &&& origin matches Some(from) && file.source == source_of(from)
                },
                None => file.value is None && file.source == ValueSource::Default,
            }
        },
{
}

/// Whether a lookup is what `parse` makes of the text under a key.
pub open spec fn made_of_text<T, F: Fn(&str) -> Option<T>>(
    lookup: FileLookup<T>,
    entries: Map<Seq<char>, Tree>,
    key: Seq<char>,
    parse: F,
) -> bool {
    match value_under(entries, key) {
        None => lookup is Absent,
        Some(Tree::Text(text)) | Some(Tree::Datetime(text)) => exists|given: &str| #[trigger]
            given@ == text && match lookup {
                FileLookup::Found(value) => parse.ensures((given,), Some(value)),
                FileLookup::Mismatch => parse.ensures((given,), None),
                FileLookup::Absent => false,
            },
        Some(_) => lookup is Mismatch,
    }
}

/// Every address is read from the text under its own key.
pub proof fn law_addresses_are_read_under_their_keys<
    I: Fn(&str) -> Option<IpAddr>,
    S: Fn(&str) -> Option<SocketAddr>,
>(table: &toml::Table, parse_ip: &I, parse_socket: &S, addresses: Addresses)
    requires
        call_ensures(Addresses::read::<I, S>, (table, parse_ip, parse_socket), addresses),
    ensures
        made_of_text(addresses.server, entries_of(*table), "server.bind_address"@, *parse_ip),
        made_of_text(addresses.metrics, entries_of(*table), "metrics.bind_address"@, *parse_ip),
        made_of_text(
            addresses.config_endpoint,
            entries_of(*table),
            "diagnostics.config_endpoint.bind_address"@,
            *parse_socket,
        ),
{
}

/// Whether a resolver holds the arguments, and the file where there is one.
pub open spec fn made_of<I: Fn(&str) -> Option<IpAddr>, S: Fn(&str) -> Option<SocketAddr>>(
    resolver: Resolver,
    arguments: clap::ArgMatches,
    document: Option<Map<Seq<char>, Tree>>,
    parse_ip: I,
    parse_socket: S,
) -> bool {
    &&& *resolver.arguments == arguments
    &&& match document {
        None => resolver.file_config is None,
        Some(entries) => {
            &&& resolver.file_config matches Some(table) && entries_of(*table) == entries
            &&& made_of_text(
                resolver.addresses.server,
                entries,
                "server.bind_address"@,
                parse_ip,
            )
            &&& made_of_text(
                resolver.addresses.metrics,
                entries,
                "metrics.bind_address"@,
                parse_ip,
            )
            &&& made_of_text(
                resolver.addresses.config_endpoint,
                entries,
                "diagnostics.config_endpoint.bind_address"@,
                parse_socket,
            )
        },
    }
}

/// A file that was named and could not be read, or is no document, is told by its path. Else the
/// configuration is what the arguments and the document make it, or nothing but the first thing
/// that is wrong with them.
pub proof fn law_configuration_is_loaded<
    D: Fn(&FsPath) -> String,
    I: Fn(&str) -> Option<IpAddr>,
    S: Fn(&str) -> Option<SocketAddr>,
>(
    arguments: &clap::ArgMatches,
    file: Value<Option<FsPath>>,
    content: Option<String>,
    show: D,
    parse_ip: I,
    parse_socket: S,
    outcome: Result<Config, LoadError>,
)
    requires
        call_ensures(
            load::<D, I, S>,
            (arguments, file, content, show, parse_ip, parse_socket),
            outcome,
        ),
    ensures
        match file.value {
            Some(path) => match content {
                None => outcome matches Err(LoadError::Unreadable { shown }) && show.ensures(
                    (&path,),
                    shown,
                ),
                Some(content) => if parsed_document(content@) is None {
                    outcome matches Err(LoadError::Malformed { shown }) && show.ensures(
                        (&path,),
                        shown,
                    )
                } else {
                    loaded(
                        outcome,
                        *arguments,
                        file,
                        parsed_document(content@),
                        parse_ip,
                        parse_socket,
                    )
                },
            },
            None => loaded(outcome, *arguments, file, None, parse_ip, parse_socket),
        },
{
    match outcome {
        Ok(config) => {
            let resolver = choose|resolver: Resolver|
                {
                    &&& looks_up(
                        resolver,
                        *arguments,
                        loadable(file.value, content),
                        parse_ip,
                        parse_socket,
                    )
                    &&& Config::flaw(resolver) is None
                    &&& #[trigger] config.faithful(resolver)
                };
            lemma_loaded(config, resolver, *arguments, file, content, parse_ip, parse_socket);
        },
        Err(LoadError::Invalid(error)) => {
            let resolver = choose|resolver: Resolver|
                {
                    &&& looks_up(
                        resolver,
                        *arguments,
                        loadable(file.value, content),
                        parse_ip,
                        parse_socket,
                    )
                    &&& #[trigger] Config::flaw(resolver) == Some(error)
                };
            lemma_refused(error, resolver, *arguments, file, content, parse_ip, parse_socket);
        },
        _ => {},
    }
}

/// The entries of the file that was named, if there is one.
pub open spec fn document_of(file: Value<Option<FsPath>>, content: Option<String>) -> Option<
    Map<Seq<char>, Tree>,
> {
    match (file.value, content) {
        (Some(_), Some(content)) => parsed_document(content@),
        _ => None,
    }
}

proof fn lemma_made_of<I: Fn(&str) -> Option<IpAddr>, S: Fn(&str) -> Option<SocketAddr>>(
    resolver: Resolver,
    arguments: clap::ArgMatches,
    file: Value<Option<FsPath>>,
    content: Option<String>,
    parse_ip: I,
    parse_socket: S,
)
    requires
        looks_up(resolver, arguments, loadable(file.value, content), parse_ip, parse_socket),
    ensures
        made_of(resolver, arguments, document_of(file, content), parse_ip, parse_socket),
{
}

proof fn lemma_loaded<I: Fn(&str) -> Option<IpAddr>, S: Fn(&str) -> Option<SocketAddr>>(
    config: Config,
    resolver: Resolver,
    arguments: clap::ArgMatches,
    file: Value<Option<FsPath>>,
    content: Option<String>,
    parse_ip: I,
    parse_socket: S,
)
    requires
        looks_up(resolver, arguments, loadable(file.value, content), parse_ip, parse_socket),
        Config::flaw(resolver) is None,
        config.faithful(resolver),
        config.config_file == file,
    ensures
        loaded(
            Ok::<Config, LoadError>(config),
            arguments,
            file,
            document_of(file, content),
            parse_ip,
            parse_socket,
        ),
{
    lemma_made_of(resolver, arguments, file, content, parse_ip, parse_socket);
    lemma_right(config, resolver);
    lemma_flaw(resolver);
}

proof fn lemma_refused<I: Fn(&str) -> Option<IpAddr>, S: Fn(&str) -> Option<SocketAddr>>(
    error: ConfigError,
    resolver: Resolver,
    arguments: clap::ArgMatches,
    file: Value<Option<FsPath>>,
    content: Option<String>,
    parse_ip: I,
    parse_socket: S,
)
    requires
        looks_up(resolver, arguments, loadable(file.value, content), parse_ip, parse_socket),
        Config::flaw(resolver) == Some(error),
    ensures
        loaded(
            Err::<Config, LoadError>(LoadError::Invalid(error)),
            arguments,
            file,
            document_of(file, content),
            parse_ip,
            parse_socket,
        ),
{
    lemma_made_of(resolver, arguments, file, content, parse_ip, parse_socket);
    lemma_flaw(resolver);
}

/// Whether an outcome is what the arguments and the document make it.
pub open spec fn loaded<I: Fn(&str) -> Option<IpAddr>, S: Fn(&str) -> Option<SocketAddr>>(
    outcome: Result<Config, LoadError>,
    arguments: clap::ArgMatches,
    file: Value<Option<FsPath>>,
    document: Option<Map<Seq<char>, Tree>>,
    parse_ip: I,
    parse_socket: S,
) -> bool {
    match outcome {
        Ok(config) => config.config_file == file && exists|resolver: Resolver|
            made_of(resolver, arguments, document, parse_ip, parse_socket)
                && #[trigger] config_is_right(config, resolver) && is_wrong(resolver) is None,
        Err(LoadError::Invalid(error)) => exists|resolver: Resolver|
            made_of(resolver, arguments, document, parse_ip, parse_socket)
                && #[trigger] is_wrong(resolver) == Some(error),
        Err(_) => false,
    }
}

} // verus!
