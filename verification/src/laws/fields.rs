//! Every knob reaches its own field of the configuration, and a configuration is refused only for a
//! reason.
use crate::arguments::{found_arguments, refused_arguments};
use crate::choices::{LogFormat, LogLevel, SymlinkPolicy};
use crate::config::cors::{all_methods, CorsConfig};
use crate::config::filesystem::FilesystemConfig;
use crate::config::jwt::{JwtConfig, JwtKind, JwtSource};
use crate::config::resolver::{flaw_of, Resolver};
use crate::config::sections::{
    ConfigEndpointConfig, LimitsConfig, LoggingConfig, MetricsConfig, OperationsConfig, PoolConfig,
    ServerConfig, StreamingConfig,
};
use crate::config::tls::TlsConfig;
use crate::config::Config;
use crate::duration::{Duration, HumanDuration};
use crate::error::ConfigError;
use crate::file::{value_under, Tree};
use crate::laws::readings::written;
use crate::laws::sources::{
    entries_in, given, in_file, items_given, lemma_items, over, source_of, wrong_argument,
};
use crate::mode::FileMode;
use crate::parameter::{holds, FileLookup, Many, Parameter, Simple};
use crate::parameters;
use crate::path::FsPath;
use crate::root::Root;
use crate::scalars::{is_method, ByteSize, IpAddr, Method, SocketAddr, Url};
use crate::setting::{all_items, ArgumentValue, FileValue, ListItem, SettingView};
use crate::value::{Value, ValueSource};
use vstd::prelude::*;

verus! {

/// Whether a value has these names. Its key in the configuration file is its identifier.
pub open spec fn named<T>(
    value: Value<T>,
    id: &'static str,
    argument: &'static str,
    environment: &'static str,
    sensitive: bool,
) -> bool {
    &&& value.id == id
    &&& value.toml == Some(id)
    &&& value.argument == argument
    &&& value.environment == environment
    &&& value.sensitive == sensitive
}

/// What the configuration file holds under an identifier, if there is one.
pub open spec fn filed(resolver: Resolver, id: &'static str) -> Option<Tree> {
    in_file(entries_in(resolver.file_config), Some(id))
}

/// Whether a value is the one that the sources hold, or the default where they hold none.
pub open spec fn right<T: FileValue>(
    value: <T as DeepView>::V,
    source: ValueSource,
    resolver: Resolver,
    id: &'static str,
) -> bool {
    match given(*resolver.arguments, id@) {
        Some((setting, origin)) => {
            &&& T::of_setting(setting) == Some(value)
            &&& origin matches Some(from) && source == source_of(from)
        },
        None => match filed(resolver, id) {
            Some(tree) => T::of_tree(tree) == Some(value) && source == ValueSource::ConfigFile,
            None => false,
        },
    }
}

/// Whether the sources hold nothing for a knob.
pub open spec fn unset(resolver: Resolver, id: &'static str) -> bool {
    given(*resolver.arguments, id@) is None && filed(resolver, id) is None
}

/// Whether a knob has the right value.
pub open spec fn right_one<T: FileValue>(
    value: Value<T>,
    resolver: Resolver,
    id: &'static str,
    initial: <T as DeepView>::V,
) -> bool {
    if unset(resolver, id) {
        value.value.deep_view() == initial && value.source == ValueSource::Default
    } else {
        right::<T>(value.value.deep_view(), value.source, resolver, id)
    }
}

/// Whether a knob that is a span of time has the right value.
pub open spec fn right_span(
    value: Value<Duration>,
    resolver: Resolver,
    id: &'static str,
    secs: u64,
) -> bool {
    if unset(resolver, id) {
        value.value == (Duration { secs, nanos: 0 }) && value.source == ValueSource::Default
    } else {
        right::<HumanDuration>(HumanDuration(value.value), value.source, resolver, id)
    }
}

/// Whether a knob without a default has the right value.
pub open spec fn right_optional<T: FileValue>(
    value: Value<Option<T>>,
    resolver: Resolver,
    id: &'static str,
) -> bool {
    if unset(resolver, id) {
        value.value is None && value.source == ValueSource::Default
    } else {
        value.value matches Some(inner) && right::<T>(
            inner.deep_view(),
            value.source,
            resolver,
            id,
        )
    }
}

/// Whether a knob that was set has the right value.
pub open spec fn right_present<T: FileValue>(
    value: Value<T>,
    resolver: Resolver,
    id: &'static str,
) -> bool {
    !unset(resolver, id) && right::<T>(value.value.deep_view(), value.source, resolver, id)
}

/// Whether a knob that is an address has the right value, where `lookup` is what there is of it in
/// the configuration file.
pub open spec fn right_address<T: ArgumentValue>(
    value: Value<T>,
    resolver: Resolver,
    id: &'static str,
    lookup: FileLookup<T>,
    initial: T,
) -> bool {
    match given(*resolver.arguments, id@) {
        Some((setting, origin)) => {
            &&& T::of_setting(setting) == Some(value.value.deep_view())
            &&& origin matches Some(from) && value.source == source_of(from)
        },
        None => match lookup {
            FileLookup::Found(found) if resolver.file_config is Some => {
                &&& value.value.deep_view() == found.deep_view()
                &&& value.source == ValueSource::ConfigFile
            },
            _ => {
                &&& value.value.deep_view() == initial.deep_view()
                &&& value.source == ValueSource::Default
            },
        },
    }
}

/// The texts of settings.
pub open spec fn texts_in(settings: Seq<SettingView>) -> Seq<Seq<char>> {
    Seq::new(settings.len(), |i: int| settings[i]->Text_0)
}

/// The texts of the items of a list that the sources hold, if they are texts.
pub open spec fn listed_texts(resolver: Resolver, id: &'static str) -> Option<Seq<Seq<char>>> {
    let found = found_arguments(*resolver.arguments);
    if found.contains_key(id@) {
        let (settings, origin) = found[id@];
        if forall|i: int| 0 <= i < settings.len() ==> #[trigger] settings[i] is Text {
            Some(items_given(texts_in(settings), origin))
        } else {
            None
        }
    } else {
        match filed(resolver, id) {
            Some(Tree::Array(items)) => if forall|i: int|
                0 <= i < items.len() ==> written(#[trigger] items[i]) is Some {
                Some(Seq::new(items.len(), |i: int| written(items[i])->0))
            } else {
                None
            },
            Some(_) => None,
            None => Some(Seq::empty()),
        }
    }
}

/// Where a list comes from.
pub open spec fn listed_source(resolver: Resolver, id: &'static str) -> Option<ValueSource> {
    let found = found_arguments(*resolver.arguments);
    if found.contains_key(id@) {
        match found[id@].1 {
            Some(origin) => Some(source_of(origin)),
            None => None,
        }
    } else if filed(resolver, id) is Some {
        Some(ValueSource::ConfigFile)
    } else {
        Some(ValueSource::Default)
    }
}

/// Whether a knob that is a list has the right items, in their order.
pub open spec fn right_list<T: ListItem>(
    value: Value<Vec<T>>,
    resolver: Resolver,
    id: &'static str,
) -> bool {
    &&& listed_source(resolver, id) == Some(value.source)
    &&& listed_texts(resolver, id) matches Some(texts) && {
        &&& value.value@.len() == texts.len()
        &&& forall|i: int|
            0 <= i < texts.len() ==> T::of_text(#[trigger] texts[i]) == Some(
                value.value@[i].deep_view(),
            )
    }
}

/// Whether a knob that is a list of methods has the right ones, in their order.
pub open spec fn right_methods(
    value: Value<Vec<Method>>,
    resolver: Resolver,
    id: &'static str,
) -> bool {
    &&& listed_source(resolver, id) == Some(value.source)
    &&& listed_texts(resolver, id) matches Some(texts) && {
        &&& value.value@.len() == texts.len()
        &&& forall|i: int| 0 <= i < texts.len() ==> #[trigger] texts[i] == value.value@[i].name@
    }
}

proof fn lemma_one<T: FileValue>(
    value: Value<T>,
    parameter: Parameter<Simple<T>>,
    resolver: Resolver,
)
    requires
        holds(value, parameter, resolver.sees(parameter)),
        parameter.toml == Some(parameter.id),
    ensures
        named(value, parameter.id, parameter.argument, parameter.environment, parameter.sensitive),
        right_one(value, resolver, parameter.id, parameter.default.0.deep_view()),
{
}

proof fn lemma_text(
    value: Value<String>,
    parameter: Parameter<&'static str>,
    resolver: Resolver,
)
    requires
        holds(value, parameter, resolver.sees(parameter)),
        parameter.toml == Some(parameter.id),
    ensures
        named(value, parameter.id, parameter.argument, parameter.environment, parameter.sensitive),
        right_one(value, resolver, parameter.id, parameter.default@),
{
}

proof fn lemma_span(
    value: Value<Duration>,
    parameter: Parameter<Simple<HumanDuration>>,
    resolver: Resolver,
)
    requires
        holds(
            crate::config::resolver::as_written(value),
            parameter,
            resolver.sees(parameter),
        ),
        parameter.toml == Some(parameter.id),
        parameter.default.0.0.nanos == 0,
    ensures
        named(value, parameter.id, parameter.argument, parameter.environment, parameter.sensitive),
        right_span(value, resolver, parameter.id, parameter.default.0.0.secs),
{
}

proof fn lemma_optional<T: FileValue>(
    value: Value<Option<T>>,
    parameter: Parameter<Option<T>>,
    resolver: Resolver,
)
    requires
        holds(value, parameter, resolver.sees(parameter)),
        parameter.toml == Some(parameter.id),
        parameter.default is None,
    ensures
        named(value, parameter.id, parameter.argument, parameter.environment, parameter.sensitive),
        right_optional(value, resolver, parameter.id),
{
}

proof fn lemma_present<T: FileValue>(
    value: Value<T>,
    parameter: Parameter<Option<T>>,
    resolver: Resolver,
)
    requires
        holds(value.with(Some(value.value)), parameter, resolver.sees(parameter)),
        parameter.toml == Some(parameter.id),
        parameter.default is None,
    ensures
        named(value, parameter.id, parameter.argument, parameter.environment, parameter.sensitive),
        right_present(value, resolver, parameter.id),
{
}

proof fn lemma_address<T: ArgumentValue>(
    value: Value<T>,
    parameter: Parameter<Simple<T>>,
    resolver: Resolver,
    lookup: FileLookup<T>,
)
    requires
        holds(value, parameter, resolver.sees_address(parameter, lookup)),
        parameter.toml == Some(parameter.id),
    ensures
        named(value, parameter.id, parameter.argument, parameter.environment, parameter.sensitive),
        right_address(value, resolver, parameter.id, lookup, parameter.default.0),
{
}

proof fn lemma_listed<T: ListItem>(parameter: Parameter<Many<T>>, resolver: Resolver)
    requires
        parameter.toml == Some(parameter.id),
        resolver.sees(parameter) is Ok,
    ensures
        listed_source(resolver, parameter.id) == Some(resolver.sees(parameter)->Ok_0.1),
        listed_texts(resolver, parameter.id) matches Some(texts) && {
            &&& resolver.sees(parameter)->Ok_0.0.len() == texts.len()
            &&& forall|i: int|
                0 <= i < texts.len() ==> T::of_text(#[trigger] texts[i]) == Some(
                    resolver.sees(parameter)->Ok_0.0[i],
                )
        },
{
    let id = parameter.id;
    let found = found_arguments(*resolver.arguments);
    if found.contains_key(id@) {
        let (settings, origin) = found[id@];
        assert(settings.map_values(|setting: SettingView| setting->Text_0) =~= texts_in(settings));
        lemma_items(texts_in(settings), origin);
    } else {
        if let Some(Tree::Array(items)) = filed(resolver, id) {
            assert(items.map_values(|item: Tree| crate::file::text_of(item)->0) =~= Seq::new(
                items.len(),
                |i: int| written(items[i])->0,
            ));
        }
    }
}

proof fn lemma_list<T: ListItem>(
    value: Value<Vec<T>>,
    parameter: Parameter<Many<T>>,
    resolver: Resolver,
)
    requires
        holds(value, parameter, resolver.sees(parameter)),
        parameter.toml == Some(parameter.id),
    ensures
        named(value, parameter.id, parameter.argument, parameter.environment, parameter.sensitive),
        right_list(value, resolver, parameter.id),
{
    lemma_listed(parameter, resolver);
    assert forall|i: int| 0 <= i < value.value@.len() implies value.value.deep_view()[i]
        == #[trigger] value.value@[i].deep_view() by {}
}

proof fn lemma_methods(
    value: Value<Vec<Method>>,
    parameter: Parameter<Many<String>>,
    resolver: Resolver,
)
    requires
        holds(value, parameter, resolver.sees(parameter)),
        parameter.toml == Some(parameter.id),
    ensures
        named(value, parameter.id, parameter.argument, parameter.environment, parameter.sensitive),
        right_methods(value, resolver, parameter.id),
{
    lemma_listed(parameter, resolver);
    let texts = listed_texts(resolver, parameter.id)->0;
    assert forall|i: int| 0 <= i < texts.len() implies #[trigger] texts[i]
        == value.value@[i].name@ by {
        assert(<String as ListItem>::of_text(texts[i]) == Some(texts[i]));
        assert(value.value.deep_view()[i] == value.value@[i].deep_view());
    }
}

/// The first of two things that are wrong.
pub open spec fn earlier(left: Option<ConfigError>, right: Option<ConfigError>) -> Option<
    ConfigError,
> {
    if left is Some {
        left
    } else {
        right
    }
}

/// What is wrong with a knob that has one value: its argument, or what stands in the configuration
/// file for it where there is no argument.
pub open spec fn wrong_one<T: FileValue>(resolver: Resolver, id: &'static str) -> Option<
    ConfigError,
> {
    earlier(
        wrong_argument::<T>(*resolver.arguments, id),
        match (given(*resolver.arguments, id@), filed(resolver, id)) {
            (None, Some(tree)) => if T::of_tree(tree) is None {
                Some(ConfigError::FileValue { key: id })
            } else {
                None
            },
            _ => None,
        },
    )
}

/// What is wrong with a knob that is an address.
pub open spec fn wrong_address<T: ArgumentValue>(
    resolver: Resolver,
    id: &'static str,
    lookup: FileLookup<T>,
) -> Option<ConfigError> {
    earlier(
        wrong_argument::<T>(*resolver.arguments, id),
        if given(*resolver.arguments, id@) is None && resolver.file_config is Some
            && lookup is Mismatch {
            Some(ConfigError::FileValue { key: id })
        } else {
            None
        },
    )
}

/// Whether all items that the sources hold for a list fit.
pub open spec fn items_fit<T: ListItem>(resolver: Resolver, id: &'static str) -> bool {
    listed_texts(resolver, id) matches Some(texts) && forall|i: int|
        0 <= i < texts.len() ==> T::of_text(#[trigger] texts[i]) is Some
}

/// What is wrong with a knob that is a list.
pub open spec fn wrong_list<T: ListItem>(resolver: Resolver, id: &'static str) -> Option<
    ConfigError,
> {
    let refused = refused_arguments(*resolver.arguments);
    if refused.contains_key(id@) {
        Some(ConfigError::ArgumentList { text: refused[id@] })
    } else if found_arguments(*resolver.arguments).contains_key(id@) {
        if !items_fit::<T>(resolver, id) {
            Some(ConfigError::ArgumentItem { id })
        } else if listed_source(resolver, id) is None {
            Some(ConfigError::ArgumentSource { id })
        } else {
            None
        }
    } else if !items_fit::<T>(resolver, id) {
        Some(ConfigError::FileValue { key: id })
    } else {
        None
    }
}

/// Whether a flag that is off by default is on.
pub open spec fn on(resolver: Resolver, id: &'static str) -> bool {
    match given(*resolver.arguments, id@) {
        Some((setting, _)) => setting == SettingView::Flag(true),
        None => filed(resolver, id) == Some(Tree::Boolean(true)),
    }
}

/// Whether a list has no items.
pub open spec fn none_listed<T: ListItem>(resolver: Resolver, id: &'static str) -> bool {
    listed_texts(resolver, id) matches Some(texts) && texts.len() == 0
}

/// Whether a character may stand in the name of a method.
pub open spec fn may_stand_in_method(c: char) -> bool {
    ||| 'a' <= c <= 'z'
    ||| 'A' <= c <= 'Z'
    ||| '0' <= c <= '9'
    ||| "!#$%&'*+-.^_`|~"@.contains(c)
}

/// Whether all items of the allowed methods are names of methods.
pub open spec fn only_methods(resolver: Resolver) -> bool {
    listed_texts(resolver, "cors.allowed_methods") matches Some(texts) && forall|i: int|
        0 <= i < texts.len() ==> method_name(#[trigger] texts[i])
}

/// Whether a text is the name of a method: it has characters, and they may all stand in one.
pub open spec fn method_name(text: Seq<char>) -> bool {
    text.len() > 0 && forall|i: int| 0 <= i < text.len() ==> may_stand_in_method(#[trigger] text[i])
}

/// A text is read as a method exactly if it is the name of one, and it stays as it is.
pub proof fn law_method_is_its_name(text: &str, read: Option<Method>, other: Seq<char>)
    requires
        call_ensures(Method::parse, (text,), read),
    ensures
        method_name(text@) ==> (read matches Some(method) && method.name@ == text@),
        !method_name(text@) ==> read is None,
        is_method(other) == method_name(other),
{
    lemma_method_name(text@);
    lemma_method_name(other);
}

proof fn lemma_method_name(text: Seq<char>)
    ensures
        is_method(text) == method_name(text),
{
    assert forall|c: char| #[trigger] may_stand_in_method(c) == crate::scalars::token_character(
        c,
    ) by {
        reveal_strlit("!#$%&'*+-.^_`|~");
        let marks = "!#$%&'*+-.^_`|~"@;
        assert(marks =~= seq![
            '!', '#', '$', '%', '&', '\'', '*', '+', '-', '.', '^', '_', '`', '|', '~',
        ]);
        assert(marks[0] == '!' && marks[1] == '#' && marks[2] == '$' && marks[3] == '%' && marks[4]
            == '&' && marks[5] == '\'' && marks[6] == '*' && marks[7] == '+' && marks[8] == '-'
            && marks[9] == '.' && marks[10] == '^' && marks[11] == '_' && marks[12] == '`'
            && marks[13] == '|' && marks[14] == '~');
    }
    assert forall|i: int| 0 <= i < text.len() implies may_stand_in_method(#[trigger] text[i])
        == crate::scalars::token_character(text[i]) by {}
}

proof fn lemma_wrong_one<T: FileValue>(parameter: Parameter<Simple<T>>, resolver: Resolver)
    requires
        parameter.toml == Some(parameter.id),
    ensures
        flaw_of(resolver.sees(parameter)) == wrong_one::<T>(resolver, parameter.id),
{
}

proof fn lemma_wrong_text(parameter: Parameter<&'static str>, resolver: Resolver)
    requires
        parameter.toml == Some(parameter.id),
    ensures
        flaw_of(resolver.sees(parameter)) == wrong_one::<String>(resolver, parameter.id),
{
}

proof fn lemma_wrong_optional<T: FileValue>(parameter: Parameter<Option<T>>, resolver: Resolver)
    requires
        parameter.toml == Some(parameter.id),
        parameter.default is None,
    ensures
        flaw_of(resolver.sees(parameter)) == wrong_one::<T>(resolver, parameter.id),
        resolver.sees(parameter) is Ok ==> {
            &&& resolver.sees(parameter)->Ok_0.0 is None <==> unset(resolver, parameter.id)
            &&& resolver.sees(parameter)->Ok_0.1 == set_in(resolver, parameter.id)
        },
{
}

proof fn lemma_wrong_address<T: ArgumentValue>(
    parameter: Parameter<Simple<T>>,
    resolver: Resolver,
    lookup: FileLookup<T>,
)
    requires
        parameter.toml == Some(parameter.id),
    ensures
        flaw_of(resolver.sees_address(parameter, lookup)) == wrong_address::<T>(
            resolver,
            parameter.id,
            lookup,
        ),
{
}

proof fn lemma_wrong_flag(parameter: Parameter<Simple<bool>>, resolver: Resolver)
    requires
        parameter.toml == Some(parameter.id),
        parameter.default.0 == false,
        resolver.sees(parameter) is Ok,
    ensures
        resolver.sees(parameter)->Ok_0.0 == on(resolver, parameter.id),
{
}

proof fn lemma_wrong_list<T: ListItem>(parameter: Parameter<Many<T>>, resolver: Resolver)
    requires
        parameter.toml == Some(parameter.id),
    ensures
        flaw_of(resolver.sees(parameter)) == wrong_list::<T>(resolver, parameter.id),
        resolver.sees(parameter) is Ok ==> {
            &&& (resolver.sees(parameter)->Ok_0.0.len() == 0) == none_listed::<T>(
                resolver,
                parameter.id,
            )
        },
{
    let id = parameter.id;
    let found = found_arguments(*resolver.arguments);
    if found.contains_key(id@) {
        let (settings, origin) = found[id@];
        assert(settings.map_values(|setting: SettingView| setting->Text_0) =~= texts_in(settings));
        lemma_items(texts_in(settings), origin);
    } else {
        if let Some(Tree::Array(items)) = filed(resolver, id) {
            assert(items.map_values(|item: Tree| crate::file::text_of(item)->0) =~= Seq::new(
                items.len(),
                |i: int| written(items[i])->0,
            ));
        }
    }
    if resolver.sees(parameter) is Ok {
        lemma_listed(parameter, resolver);
    }
}

/// Where a knob was set.
pub open spec fn set_in(resolver: Resolver, id: &'static str) -> ValueSource {
    match given(*resolver.arguments, id@) {
        Some((_, Some(origin))) => source_of(origin),
        Some((_, None)) => ValueSource::Default,
        None => if filed(resolver, id) is Some {
            ValueSource::ConfigFile
        } else {
            ValueSource::Default
        },
    }
}

/// Which of two knobs of the same sort keys come from.
pub open spec fn place_of_two(
    resolver: Resolver,
    left: &'static str,
    left_kind: JwtKind,
    right: &'static str,
    right_kind: JwtKind,
) -> Result<JwtKind, ConfigError> {
    let first = set_in(resolver, left);
    let second = set_in(resolver, right);
    if over(first, second) {
        Ok(left_kind)
    } else if over(second, first) {
        Ok(right_kind)
    } else if first == ValueSource::Default {
        Err(ConfigError::JwtMissing)
    } else {
        Err(ConfigError::JwtConflict { first: left, second: right, source: first })
    }
}

/// Which knob keys come from: one of the key sets where one was set, and else one of the public
/// keys; of both, the one that was set in the source that comes first.
pub open spec fn place_of_keys(resolver: Resolver) -> Result<JwtKind, ConfigError> {
    if set_in(resolver, "auth.jwt.jwks_path") != ValueSource::Default || set_in(
        resolver,
        "auth.jwt.jwks_url",
    ) != ValueSource::Default {
        place_of_two(
            resolver,
            "auth.jwt.jwks_path",
            JwtKind::JwksPath,
            "auth.jwt.jwks_url",
            JwtKind::JwksUrl,
        )
    } else {
        place_of_two(
            resolver,
            "auth.jwt.public_key_path",
            JwtKind::PublicKeyPath,
            "auth.jwt.public_key_url",
            JwtKind::PublicKeyUrl,
        )
    }
}

/// Every field of the section holds what the sources hold under its own identifier.
pub open spec fn server_is_right(section: ServerConfig, resolver: Resolver) -> bool {
    &&& named(section.bind_address, "server.bind_address", "--bind-address", "NETIXFS_SERVER_BIND_ADDRESS", false)
    &&& right_address::<IpAddr>(section.bind_address, resolver, "server.bind_address", resolver.addresses.server, IpAddr::V4([127, 0, 0, 1]))
    &&& named(section.port, "server.port", "--port", "NETIXFS_SERVER_PORT", false)
    &&& right_one::<u16>(section.port, resolver, "server.port", 8080u16)
    &&& named(section.public_base_url, "server.public_base_url", "--public-base-url", "NETIXFS_SERVER_PUBLIC_BASE_URL", false)
    &&& right_optional::<Url>(section.public_base_url, resolver, "server.public_base_url")
}

proof fn lemma_server(section: ServerConfig, resolver: Resolver)
    requires
        section.faithful(resolver),
    ensures
        server_is_right(section, resolver),
{
    lemma_address::<IpAddr>(section.bind_address, parameters::server_bind_address(), resolver, resolver.addresses.server);
    lemma_one::<u16>(section.port, parameters::server_port(), resolver);
    lemma_optional::<Url>(section.public_base_url, parameters::server_public_base_url(), resolver);
}

/// Every field of the section holds what the sources hold under its own identifier.
pub open spec fn operations_is_right(section: OperationsConfig, resolver: Resolver) -> bool {
    &&& named(section.allow_recursive_delete, "operations.allow_recursive_delete", "--allow-recursive-delete", "NETIXFS_OPERATIONS_ALLOW_RECURSIVE_DELETE", false)
    &&& right_one::<bool>(section.allow_recursive_delete, resolver, "operations.allow_recursive_delete", false)
    &&& named(section.allow_recursive_copy, "operations.allow_recursive_copy", "--allow-recursive-copy", "NETIXFS_OPERATIONS_ALLOW_RECURSIVE_COPY", false)
    &&& right_one::<bool>(section.allow_recursive_copy, resolver, "operations.allow_recursive_copy", false)
    &&& named(section.allow_chmod, "operations.allow_chmod", "--allow-chmod", "NETIXFS_OPERATIONS_ALLOW_CHMOD", false)
    &&& right_one::<bool>(section.allow_chmod, resolver, "operations.allow_chmod", false)
    &&& named(section.allow_hard_links, "operations.allow_hard_links", "--allow-hard-links", "NETIXFS_OPERATIONS_ALLOW_HARD_LINKS", false)
    &&& right_one::<bool>(section.allow_hard_links, resolver, "operations.allow_hard_links", false)
    &&& named(section.allow_symlink_create, "operations.allow_symlink_create", "--allow-symlink-create", "NETIXFS_OPERATIONS_ALLOW_SYMLINK_CREATE", false)
    &&& right_one::<bool>(section.allow_symlink_create, resolver, "operations.allow_symlink_create", false)
}

proof fn lemma_operations(section: OperationsConfig, resolver: Resolver)
    requires
        section.faithful(resolver),
    ensures
        operations_is_right(section, resolver),
{
    lemma_one::<bool>(section.allow_recursive_delete, parameters::operations_allow_recursive_delete(), resolver);
    lemma_one::<bool>(section.allow_recursive_copy, parameters::operations_allow_recursive_copy(), resolver);
    lemma_one::<bool>(section.allow_chmod, parameters::operations_allow_chmod(), resolver);
    lemma_one::<bool>(section.allow_hard_links, parameters::operations_allow_hard_links(), resolver);
    lemma_one::<bool>(section.allow_symlink_create, parameters::operations_allow_symlink_create(), resolver);
}

/// Every field of the section holds what the sources hold under its own identifier.
pub open spec fn limits_is_right(section: LimitsConfig, resolver: Resolver) -> bool {
    &&& named(section.max_request_body_size, "limits.max_request_body_size", "--max-request-body-size", "NETIXFS_LIMITS_MAX_REQUEST_BODY_SIZE", false)
    &&& right_one::<ByteSize>(section.max_request_body_size, resolver, "limits.max_request_body_size", ByteSize(104_857_600))
    &&& named(section.max_read_size, "limits.max_read_size", "--max-read-size", "NETIXFS_LIMITS_MAX_READ_SIZE", false)
    &&& right_one::<ByteSize>(section.max_read_size, resolver, "limits.max_read_size", ByteSize(104_857_600))
    &&& named(section.max_directory_entries, "limits.max_directory_entries", "--max-directory-entries", "NETIXFS_LIMITS_MAX_DIRECTORY_ENTRIES", false)
    &&& right_one::<u32>(section.max_directory_entries, resolver, "limits.max_directory_entries", 10_000u32)
    &&& named(section.max_concurrent_requests, "limits.max_concurrent_requests", "--max-concurrent-requests", "NETIXFS_LIMITS_MAX_CONCURRENT_REQUESTS", false)
    &&& right_one::<u32>(section.max_concurrent_requests, resolver, "limits.max_concurrent_requests", 1024u32)
    &&& named(section.max_concurrent_streams, "limits.max_concurrent_streams", "--max-concurrent-streams", "NETIXFS_LIMITS_MAX_CONCURRENT_STREAMS", false)
    &&& right_one::<u32>(section.max_concurrent_streams, resolver, "limits.max_concurrent_streams", 128u32)
}

proof fn lemma_limits(section: LimitsConfig, resolver: Resolver)
    requires
        section.faithful(resolver),
    ensures
        limits_is_right(section, resolver),
{
    lemma_one::<ByteSize>(section.max_request_body_size, parameters::limits_max_request_body_size(), resolver);
    lemma_one::<ByteSize>(section.max_read_size, parameters::limits_max_read_size(), resolver);
    lemma_one::<u32>(section.max_directory_entries, parameters::limits_max_directory_entries(), resolver);
    lemma_one::<u32>(section.max_concurrent_requests, parameters::limits_max_concurrent_requests(), resolver);
    lemma_one::<u32>(section.max_concurrent_streams, parameters::limits_max_concurrent_streams(), resolver);
}

/// Every field of the section holds what the sources hold under its own identifier.
pub open spec fn streaming_is_right(section: StreamingConfig, resolver: Resolver) -> bool {
    &&& named(section.idle_timeout, "streaming.idle_timeout", "--stream-idle-timeout", "NETIXFS_STREAMING_IDLE_TIMEOUT", false)
    &&& right_span(section.idle_timeout, resolver, "streaming.idle_timeout", 300)
    &&& named(section.max_duration, "streaming.max_duration", "--stream-max-duration", "NETIXFS_STREAMING_MAX_DURATION", false)
    &&& right_span(section.max_duration, resolver, "streaming.max_duration", 3600)
    &&& named(section.heartbeat_interval, "streaming.heartbeat_interval", "--stream-heartbeat-interval", "NETIXFS_STREAMING_HEARTBEAT_INTERVAL", false)
    &&& right_span(section.heartbeat_interval, resolver, "streaming.heartbeat_interval", 30)
    &&& named(section.allow_path_follow, "streaming.allow_path_follow", "--stream-allow-path-follow", "NETIXFS_STREAMING_ALLOW_PATH_FOLLOW", false)
    &&& right_one::<bool>(section.allow_path_follow, resolver, "streaming.allow_path_follow", false)
}

proof fn lemma_streaming(section: StreamingConfig, resolver: Resolver)
    requires
        section.faithful(resolver),
    ensures
        streaming_is_right(section, resolver),
{
    lemma_span(section.idle_timeout, parameters::streaming_idle_timeout(), resolver);
    lemma_span(section.max_duration, parameters::streaming_max_duration(), resolver);
    lemma_span(section.heartbeat_interval, parameters::streaming_heartbeat_interval(), resolver);
    lemma_one::<bool>(section.allow_path_follow, parameters::streaming_allow_path_follow(), resolver);
}

/// Every field of the section holds what the sources hold under its own identifier.
pub open spec fn pool_is_right(section: PoolConfig, resolver: Resolver) -> bool {
    &&& named(section.max_workers, "worker_pool.max_workers", "--worker-pool-max-workers", "NETIXFS_WORKER_POOL_MAX_WORKERS", false)
    &&& right_one::<u32>(section.max_workers, resolver, "worker_pool.max_workers", 64u32)
    &&& named(section.idle_timeout, "worker_pool.idle_timeout", "--worker-pool-idle-timeout", "NETIXFS_WORKER_POOL_IDLE_TIMEOUT", false)
    &&& right_span(section.idle_timeout, resolver, "worker_pool.idle_timeout", 300)
    &&& named(section.request_timeout, "worker_pool.request_timeout", "--worker-pool-request-timeout", "NETIXFS_WORKER_POOL_REQUEST_TIMEOUT", false)
    &&& right_span(section.request_timeout, resolver, "worker_pool.request_timeout", 30)
}

proof fn lemma_pool(section: PoolConfig, resolver: Resolver)
    requires
        section.faithful(resolver),
    ensures
        pool_is_right(section, resolver),
{
    lemma_one::<u32>(section.max_workers, parameters::pool_max_workers(), resolver);
    lemma_span(section.idle_timeout, parameters::pool_idle_timeout(), resolver);
    lemma_span(section.request_timeout, parameters::pool_request_timeout(), resolver);
}

/// Every field of the section holds what the sources hold under its own identifier.
pub open spec fn logging_is_right(section: LoggingConfig, resolver: Resolver) -> bool {
    &&& named(section.level, "logging.level", "--log-level", "NETIXFS_LOGGING_LEVEL", false)
    &&& right_one::<LogLevel>(section.level, resolver, "logging.level", LogLevel::Info)
    &&& named(section.format, "logging.format", "--log-format", "NETIXFS_LOGGING_FORMAT", false)
    &&& right_one::<LogFormat>(section.format, resolver, "logging.format", LogFormat::Json)
    &&& named(section.redact_paths, "logging.redact_paths", "--log-redact-paths", "NETIXFS_LOGGING_REDACT_PATHS", false)
    &&& right_one::<bool>(section.redact_paths, resolver, "logging.redact_paths", false)
}

proof fn lemma_logging(section: LoggingConfig, resolver: Resolver)
    requires
        section.faithful(resolver),
    ensures
        logging_is_right(section, resolver),
{
    lemma_one::<LogLevel>(section.level, parameters::logging_level(), resolver);
    lemma_one::<LogFormat>(section.format, parameters::logging_format(), resolver);
    lemma_one::<bool>(section.redact_paths, parameters::logging_redact_paths(), resolver);
}

/// Every field of the section holds what the sources hold under its own identifier.
pub open spec fn metrics_is_right(section: MetricsConfig, resolver: Resolver) -> bool {
    &&& named(section.enabled, "metrics.enabled", "--metrics-enabled", "NETIXFS_METRICS_ENABLED", false)
    &&& right_one::<bool>(section.enabled, resolver, "metrics.enabled", false)
    &&& named(section.bind_address, "metrics.bind_address", "--metrics-bind-address", "NETIXFS_METRICS_BIND_ADDRESS", false)
    &&& right_address::<IpAddr>(section.bind_address, resolver, "metrics.bind_address", resolver.addresses.metrics, IpAddr::V4([127, 0, 0, 1]))
    &&& named(section.port, "metrics.port", "--metrics-port", "NETIXFS_METRICS_PORT", false)
    &&& right_one::<u16>(section.port, resolver, "metrics.port", 9090u16)
}

proof fn lemma_metrics(section: MetricsConfig, resolver: Resolver)
    requires
        section.faithful(resolver),
    ensures
        metrics_is_right(section, resolver),
{
    lemma_one::<bool>(section.enabled, parameters::metrics_enabled(), resolver);
    lemma_address::<IpAddr>(section.bind_address, parameters::metrics_bind_address(), resolver, resolver.addresses.metrics);
    lemma_one::<u16>(section.port, parameters::metrics_port(), resolver);
}

/// Every field of the section holds what the sources hold under its own identifier.
pub open spec fn config_endpoint_is_right(section: ConfigEndpointConfig, resolver: Resolver) -> bool {
    &&& named(section.enabled, "diagnostics.config_endpoint.enabled", "--config-endpoint-enabled", "NETIXFS_DIAGNOSTICS_CONFIG_ENDPOINT_ENABLED", false)
    &&& right_one::<bool>(section.enabled, resolver, "diagnostics.config_endpoint.enabled", false)
    &&& named(section.bind_address, "diagnostics.config_endpoint.bind_address", "--config-endpoint-bind-address", "NETIXFS_DIAGNOSTICS_CONFIG_ENDPOINT_BIND_ADDRESS", false)
    &&& right_address::<SocketAddr>(section.bind_address, resolver, "diagnostics.config_endpoint.bind_address", resolver.addresses.config_endpoint, SocketAddr::V4 { octets: [127, 0, 0, 1], port: 8081 })
}

proof fn lemma_config_endpoint(section: ConfigEndpointConfig, resolver: Resolver)
    requires
        section.faithful(resolver),
    ensures
        config_endpoint_is_right(section, resolver),
{
    lemma_one::<bool>(section.enabled, parameters::diagnostics_config_endpoint_enabled(), resolver);
    lemma_address::<SocketAddr>(section.bind_address, parameters::diagnostics_config_endpoint_bind_address(), resolver, resolver.addresses.config_endpoint);
}

/// Every field of the section holds what the sources hold under its own identifier.
pub open spec fn tls_is_right(section: TlsConfig, resolver: Resolver) -> bool {
    &&& named(section.enabled, "tls.enabled", "--tls-enabled", "NETIXFS_TLS_ENABLED", false)
    &&& right_one::<bool>(section.enabled, resolver, "tls.enabled", false)
    &&& named(section.cert_path, "tls.cert_path", "--tls-cert-path", "NETIXFS_TLS_CERT_PATH", false)
    &&& right_optional::<FsPath>(section.cert_path, resolver, "tls.cert_path")
    &&& named(section.key_path, "tls.key_path", "--tls-key-path", "NETIXFS_TLS_KEY_PATH", true)
    &&& right_optional::<FsPath>(section.key_path, resolver, "tls.key_path")
}

proof fn lemma_tls(section: TlsConfig, resolver: Resolver)
    requires
        section.faithful(resolver),
    ensures
        tls_is_right(section, resolver),
{
    lemma_one::<bool>(section.enabled, parameters::tls_enabled(), resolver);
    lemma_optional::<FsPath>(section.cert_path, parameters::tls_cert_path(), resolver);
    lemma_optional::<FsPath>(section.key_path, parameters::tls_key_path(), resolver);
}

/// Every field of the section holds what the sources hold under its own identifier.
pub open spec fn cors_is_right(section: CorsConfig, resolver: Resolver) -> bool {
    &&& named(section.enabled, "cors.enabled", "--cors-enabled", "NETIXFS_CORS_ENABLED", false)
    &&& right_one::<bool>(section.enabled, resolver, "cors.enabled", false)
    &&& named(section.allowed_origins, "cors.allowed_origins", "--cors-allowed-origin", "NETIXFS_CORS_ALLOWED_ORIGINS", false)
    &&& right_list::<String>(section.allowed_origins, resolver, "cors.allowed_origins")
    &&& named(section.allowed_methods, "cors.allowed_methods", "--cors-allowed-method", "NETIXFS_CORS_ALLOWED_METHODS", false)
    &&& right_methods(section.allowed_methods, resolver, "cors.allowed_methods")
    &&& named(section.allowed_request_headers, "cors.allowed_request_headers", "--cors-allowed-request-header", "NETIXFS_CORS_ALLOWED_REQUEST_HEADERS", false)
    &&& right_list::<String>(section.allowed_request_headers, resolver, "cors.allowed_request_headers")
    &&& named(section.exposed_response_headers, "cors.exposed_response_headers", "--cors-exposed-response-header", "NETIXFS_CORS_EXPOSED_RESPONSE_HEADERS", false)
    &&& right_list::<String>(section.exposed_response_headers, resolver, "cors.exposed_response_headers")
    &&& named(section.max_age, "cors.max_age", "--cors-max-age", "NETIXFS_CORS_MAX_AGE", false)
    &&& right_span(section.max_age, resolver, "cors.max_age", 0)
    &&& named(section.allow_credentials, "cors.allow_credentials", "--cors-allow-credentials", "NETIXFS_CORS_ALLOW_CREDENTIALS", false)
    &&& right_one::<bool>(section.allow_credentials, resolver, "cors.allow_credentials", false)
    &&& named(section.allow_private_network, "cors.allow_private_network", "--cors-allow-private-network", "NETIXFS_CORS_ALLOW_PRIVATE_NETWORK", false)
    &&& right_one::<bool>(section.allow_private_network, resolver, "cors.allow_private_network", false)
}

proof fn lemma_cors(section: CorsConfig, resolver: Resolver)
    requires
        section.faithful(resolver),
    ensures
        cors_is_right(section, resolver),
{
    lemma_one::<bool>(section.enabled, parameters::cors_enabled(), resolver);
    lemma_list::<String>(section.allowed_origins, parameters::cors_allowed_origins(), resolver);
    lemma_methods(section.allowed_methods, parameters::cors_allowed_methods(), resolver);
    lemma_list::<String>(section.allowed_request_headers, parameters::cors_allowed_request_headers(), resolver);
    lemma_list::<String>(section.exposed_response_headers, parameters::cors_exposed_response_headers(), resolver);
    lemma_span(section.max_age, parameters::cors_max_age(), resolver);
    lemma_one::<bool>(section.allow_credentials, parameters::cors_allow_credentials(), resolver);
    lemma_one::<bool>(section.allow_private_network, parameters::cors_allow_private_network(), resolver);
}

/// Every field of the section holds what the sources hold under its own identifier.
pub open spec fn filesystem_is_right(section: FilesystemConfig, resolver: Resolver) -> bool {
    &&& named(section.allowed_roots, "filesystem.allowed_roots", "--allowed-root", "NETIXFS_FILESYSTEM_ALLOWED_ROOTS", false)
    &&& right_list::<Root>(section.allowed_roots, resolver, "filesystem.allowed_roots")
    &&& named(section.read_only, "filesystem.read_only", "--read-only", "NETIXFS_FILESYSTEM_READ_ONLY", false)
    &&& right_one::<bool>(section.read_only, resolver, "filesystem.read_only", false)
    &&& named(section.default_file_mode, "filesystem.default_file_mode", "--default-file-mode", "NETIXFS_FILESYSTEM_DEFAULT_FILE_MODE", false)
    &&& right_one::<FileMode>(section.default_file_mode, resolver, "filesystem.default_file_mode", FileMode(0o0644))
    &&& named(section.default_dir_mode, "filesystem.default_dir_mode", "--default-dir-mode", "NETIXFS_FILESYSTEM_DEFAULT_DIR_MODE", false)
    &&& right_one::<FileMode>(section.default_dir_mode, resolver, "filesystem.default_dir_mode", FileMode(0o0755))
    &&& named(section.umask, "filesystem.umask", "--umask", "NETIXFS_FILESYSTEM_UMASK", false)
    &&& right_optional::<FileMode>(section.umask, resolver, "filesystem.umask")
    &&& named(section.symlink_policy, "filesystem.symlink_policy", "--symlink-policy", "NETIXFS_FILESYSTEM_SYMLINK_POLICY", false)
    &&& right_one::<SymlinkPolicy>(section.symlink_policy, resolver, "filesystem.symlink_policy", SymlinkPolicy::Reject)
    &&& named(section.allow_mount_crossing, "filesystem.allow_mount_crossing", "--allow-mount-crossing", "NETIXFS_FILESYSTEM_ALLOW_MOUNT_CROSSING", false)
    &&& right_one::<bool>(section.allow_mount_crossing, resolver, "filesystem.allow_mount_crossing", false)
}

proof fn lemma_filesystem(section: FilesystemConfig, resolver: Resolver)
    requires
        section.faithful(resolver),
    ensures
        filesystem_is_right(section, resolver),
{
    lemma_list::<Root>(section.allowed_roots, parameters::filesystem_allowed_roots(), resolver);
    lemma_one::<bool>(section.read_only, parameters::filesystem_read_only(), resolver);
    lemma_one::<FileMode>(section.default_file_mode, parameters::filesystem_default_file_mode(), resolver);
    lemma_one::<FileMode>(section.default_dir_mode, parameters::filesystem_default_dir_mode(), resolver);
    lemma_optional::<FileMode>(section.umask, parameters::filesystem_umask(), resolver);
    lemma_one::<SymlinkPolicy>(section.symlink_policy, parameters::filesystem_symlink_policy(), resolver);
    lemma_one::<bool>(section.allow_mount_crossing, parameters::filesystem_allow_mount_crossing(), resolver);
}

/// Every field of the section holds what the sources hold under its own identifier.
pub open spec fn jwt_is_right(section: JwtConfig, resolver: Resolver) -> bool {
    &&& named(section.issuer, "auth.jwt.issuer", "--jwt-issuer", "NETIXFS_AUTH_JWT_ISSUER", false)
    &&& right_optional::<String>(section.issuer, resolver, "auth.jwt.issuer")
    &&& named(section.require_issuer, "auth.jwt.require_issuer", "--jwt-require-issuer", "NETIXFS_AUTH_JWT_REQUIRE_ISSUER", false)
    &&& right_one::<bool>(section.require_issuer, resolver, "auth.jwt.require_issuer", false)
    &&& named(section.audience, "auth.jwt.audience", "--jwt-audience", "NETIXFS_AUTH_JWT_AUDIENCE", false)
    &&& right_optional::<String>(section.audience, resolver, "auth.jwt.audience")
    &&& named(section.require_audience, "auth.jwt.require_audience", "--jwt-require-audience", "NETIXFS_AUTH_JWT_REQUIRE_AUDIENCE", false)
    &&& right_one::<bool>(section.require_audience, resolver, "auth.jwt.require_audience", false)
    &&& named(section.username_claim, "auth.jwt.username_claim", "--jwt-username-claim", "NETIXFS_AUTH_JWT_USERNAME_CLAIM", false)
    &&& right_one::<String>(section.username_claim, resolver, "auth.jwt.username_claim", "sub"@)
    &&& named(section.remote_key_refresh_interval, "auth.jwt.remote_key_refresh_interval", "--jwt-remote-key-refresh-interval", "NETIXFS_AUTH_JWT_REMOTE_KEY_REFRESH_INTERVAL", false)
    &&& right_span(section.remote_key_refresh_interval, resolver, "auth.jwt.remote_key_refresh_interval", 300)
    &&& match section.source {
        JwtSource::PublicKeyPath(value) => {
            &&& named(value, "auth.jwt.public_key_path", "--jwt-public-key-path", "NETIXFS_AUTH_JWT_PUBLIC_KEY_PATH", false)
            &&& right_present::<FsPath>(value, resolver, "auth.jwt.public_key_path")
        },
        JwtSource::PublicKeyUrl(value) => {
            &&& named(value, "auth.jwt.public_key_url", "--jwt-public-key-url", "NETIXFS_AUTH_JWT_PUBLIC_KEY_URL", true)
            &&& right_present::<Url>(value, resolver, "auth.jwt.public_key_url")
        },
        JwtSource::JwksPath(value) => {
            &&& named(value, "auth.jwt.jwks_path", "--jwt-jwks-path", "NETIXFS_AUTH_JWT_JWKS_PATH", false)
            &&& right_present::<FsPath>(value, resolver, "auth.jwt.jwks_path")
        },
        JwtSource::JwksUrl(value) => {
            &&& named(value, "auth.jwt.jwks_url", "--jwt-jwks-url", "NETIXFS_AUTH_JWT_JWKS_URL", true)
            &&& right_present::<Url>(value, resolver, "auth.jwt.jwks_url")
        },
    }
}

proof fn lemma_jwt(section: JwtConfig, resolver: Resolver)
    requires
        section.faithful(resolver),
    ensures
        jwt_is_right(section, resolver),
{
    lemma_optional::<String>(section.issuer, parameters::auth_jwt_issuer(), resolver);
    lemma_one::<bool>(section.require_issuer, parameters::auth_jwt_require_issuer(), resolver);
    lemma_optional::<String>(section.audience, parameters::auth_jwt_audience(), resolver);
    lemma_one::<bool>(section.require_audience, parameters::auth_jwt_require_audience(), resolver);
    lemma_text(section.username_claim, parameters::auth_jwt_username_claim(), resolver);
    lemma_span(section.remote_key_refresh_interval, parameters::auth_jwt_remote_key_refresh_interval(), resolver);
    match section.source {
        JwtSource::PublicKeyPath(value) => {
            lemma_present::<FsPath>(value, parameters::auth_jwt_public_key_path(), resolver);
        },
        JwtSource::PublicKeyUrl(value) => {
            lemma_present::<Url>(value, parameters::auth_jwt_public_key_url(), resolver);
        },
        JwtSource::JwksPath(value) => {
            lemma_present::<FsPath>(value, parameters::auth_jwt_jwks_path(), resolver);
        },
        JwtSource::JwksUrl(value) => {
            lemma_present::<Url>(value, parameters::auth_jwt_jwks_url(), resolver);
        },
    }
}

/// Whether every field of every section holds what the sources hold under its own identifier.
#[verifier::opaque]
pub open spec fn config_is_right(config: Config, resolver: Resolver) -> bool {
    &&& server_is_right(config.server, resolver)
    &&& operations_is_right(config.operations, resolver)
    &&& limits_is_right(config.limits, resolver)
    &&& streaming_is_right(config.streaming, resolver)
    &&& pool_is_right(config.pool, resolver)
    &&& logging_is_right(config.logging, resolver)
    &&& metrics_is_right(config.metrics, resolver)
    &&& config_endpoint_is_right(config.diagnostics.config_endpoint, resolver)
    &&& tls_is_right(config.tls, resolver)
    &&& cors_is_right(config.cors, resolver)
    &&& filesystem_is_right(config.filesystem, resolver)
    &&& jwt_is_right(config.auth.jwt, resolver)
}

/// A configuration that the resolution takes for faithful is right.
pub proof fn lemma_right(config: Config, resolver: Resolver)
    requires
        config.faithful(resolver),
    ensures
        config_is_right(config, resolver),
{
    reveal(config_is_right);
    lemma_server(config.server, resolver);
    lemma_operations(config.operations, resolver);
    lemma_limits(config.limits, resolver);
    lemma_streaming(config.streaming, resolver);
    lemma_pool(config.pool, resolver);
    lemma_logging(config.logging, resolver);
    lemma_metrics(config.metrics, resolver);
    lemma_config_endpoint(config.diagnostics.config_endpoint, resolver);
    lemma_tls(config.tls, resolver);
    lemma_cors(config.cors, resolver);
    lemma_filesystem(config.filesystem, resolver);
    lemma_jwt(config.auth.jwt, resolver);
}

/// Every knob reaches its own field, under its own identifier, with what the sources hold for it:
/// the arguments before the configuration file, and the configuration file before the default.
pub proof fn law_every_knob_reaches_its_field(
    config_file: Value<Option<FsPath>>,
    resolver: Resolver,
    config: Config,
)
    requires
        call_ensures(Config::resolve, (config_file, resolver), Ok::<Config, ConfigError>(config)),
    ensures
        config.config_file == config_file,
        config_is_right(config, resolver),
{
    lemma_right(config, resolver);
}

/// What is wrong with the section, if anything.
pub open spec fn server_is_wrong(resolver: Resolver) -> Option<ConfigError> {
    earlier(
        wrong_address::<IpAddr>(resolver, "server.bind_address", resolver.addresses.server),
        earlier(
            wrong_one::<u16>(resolver, "server.port"),
            wrong_one::<Url>(resolver, "server.public_base_url"),
        ),
    )
}

proof fn lemma_server_flaw(resolver: Resolver)
    ensures
        ServerConfig::flaw(resolver) == server_is_wrong(resolver),
{
    lemma_wrong_address::<IpAddr>(parameters::server_bind_address(), resolver, resolver.addresses.server);
    lemma_wrong_one::<u16>(parameters::server_port(), resolver);
    lemma_wrong_optional::<Url>(parameters::server_public_base_url(), resolver);
}

/// What is wrong with the section, if anything.
pub open spec fn operations_is_wrong(resolver: Resolver) -> Option<ConfigError> {
    earlier(
        wrong_one::<bool>(resolver, "operations.allow_recursive_delete"),
        earlier(
            wrong_one::<bool>(resolver, "operations.allow_recursive_copy"),
            earlier(
                wrong_one::<bool>(resolver, "operations.allow_chmod"),
                earlier(
                    wrong_one::<bool>(resolver, "operations.allow_hard_links"),
                    wrong_one::<bool>(resolver, "operations.allow_symlink_create"),
                ),
            ),
        ),
    )
}

proof fn lemma_operations_flaw(resolver: Resolver)
    ensures
        OperationsConfig::flaw(resolver) == operations_is_wrong(resolver),
{
    lemma_wrong_one::<bool>(parameters::operations_allow_recursive_delete(), resolver);
    lemma_wrong_one::<bool>(parameters::operations_allow_recursive_copy(), resolver);
    lemma_wrong_one::<bool>(parameters::operations_allow_chmod(), resolver);
    lemma_wrong_one::<bool>(parameters::operations_allow_hard_links(), resolver);
    lemma_wrong_one::<bool>(parameters::operations_allow_symlink_create(), resolver);
}

/// What is wrong with the section, if anything.
pub open spec fn limits_is_wrong(resolver: Resolver) -> Option<ConfigError> {
    earlier(
        wrong_one::<ByteSize>(resolver, "limits.max_request_body_size"),
        earlier(
            wrong_one::<ByteSize>(resolver, "limits.max_read_size"),
            earlier(
                wrong_one::<u32>(resolver, "limits.max_directory_entries"),
                earlier(
                    wrong_one::<u32>(resolver, "limits.max_concurrent_requests"),
                    wrong_one::<u32>(resolver, "limits.max_concurrent_streams"),
                ),
            ),
        ),
    )
}

proof fn lemma_limits_flaw(resolver: Resolver)
    ensures
        LimitsConfig::flaw(resolver) == limits_is_wrong(resolver),
{
    lemma_wrong_one::<ByteSize>(parameters::limits_max_request_body_size(), resolver);
    lemma_wrong_one::<ByteSize>(parameters::limits_max_read_size(), resolver);
    lemma_wrong_one::<u32>(parameters::limits_max_directory_entries(), resolver);
    lemma_wrong_one::<u32>(parameters::limits_max_concurrent_requests(), resolver);
    lemma_wrong_one::<u32>(parameters::limits_max_concurrent_streams(), resolver);
}

/// What is wrong with the section, if anything.
pub open spec fn streaming_is_wrong(resolver: Resolver) -> Option<ConfigError> {
    earlier(
        wrong_one::<HumanDuration>(resolver, "streaming.idle_timeout"),
        earlier(
            wrong_one::<HumanDuration>(resolver, "streaming.max_duration"),
            earlier(
                wrong_one::<HumanDuration>(resolver, "streaming.heartbeat_interval"),
                wrong_one::<bool>(resolver, "streaming.allow_path_follow"),
            ),
        ),
    )
}

proof fn lemma_streaming_flaw(resolver: Resolver)
    ensures
        StreamingConfig::flaw(resolver) == streaming_is_wrong(resolver),
{
    lemma_wrong_one::<HumanDuration>(parameters::streaming_idle_timeout(), resolver);
    lemma_wrong_one::<HumanDuration>(parameters::streaming_max_duration(), resolver);
    lemma_wrong_one::<HumanDuration>(parameters::streaming_heartbeat_interval(), resolver);
    lemma_wrong_one::<bool>(parameters::streaming_allow_path_follow(), resolver);
}

/// What is wrong with the section, if anything.
pub open spec fn pool_is_wrong(resolver: Resolver) -> Option<ConfigError> {
    earlier(
        wrong_one::<u32>(resolver, "worker_pool.max_workers"),
        earlier(
            wrong_one::<HumanDuration>(resolver, "worker_pool.idle_timeout"),
            wrong_one::<HumanDuration>(resolver, "worker_pool.request_timeout"),
        ),
    )
}

proof fn lemma_pool_flaw(resolver: Resolver)
    ensures
        PoolConfig::flaw(resolver) == pool_is_wrong(resolver),
{
    lemma_wrong_one::<u32>(parameters::pool_max_workers(), resolver);
    lemma_wrong_one::<HumanDuration>(parameters::pool_idle_timeout(), resolver);
    lemma_wrong_one::<HumanDuration>(parameters::pool_request_timeout(), resolver);
}

/// What is wrong with the section, if anything.
pub open spec fn logging_is_wrong(resolver: Resolver) -> Option<ConfigError> {
    earlier(
        wrong_one::<LogLevel>(resolver, "logging.level"),
        earlier(
            wrong_one::<LogFormat>(resolver, "logging.format"),
            wrong_one::<bool>(resolver, "logging.redact_paths"),
        ),
    )
}

proof fn lemma_logging_flaw(resolver: Resolver)
    ensures
        LoggingConfig::flaw(resolver) == logging_is_wrong(resolver),
{
    lemma_wrong_one::<LogLevel>(parameters::logging_level(), resolver);
    lemma_wrong_one::<LogFormat>(parameters::logging_format(), resolver);
    lemma_wrong_one::<bool>(parameters::logging_redact_paths(), resolver);
}

/// What is wrong with the section, if anything.
pub open spec fn metrics_is_wrong(resolver: Resolver) -> Option<ConfigError> {
    earlier(
        wrong_one::<bool>(resolver, "metrics.enabled"),
        earlier(
            wrong_address::<IpAddr>(resolver, "metrics.bind_address", resolver.addresses.metrics),
            wrong_one::<u16>(resolver, "metrics.port"),
        ),
    )
}

proof fn lemma_metrics_flaw(resolver: Resolver)
    ensures
        MetricsConfig::flaw(resolver) == metrics_is_wrong(resolver),
{
    lemma_wrong_one::<bool>(parameters::metrics_enabled(), resolver);
    lemma_wrong_address::<IpAddr>(parameters::metrics_bind_address(), resolver, resolver.addresses.metrics);
    lemma_wrong_one::<u16>(parameters::metrics_port(), resolver);
}

/// What is wrong with the section, if anything.
pub open spec fn config_endpoint_is_wrong(resolver: Resolver) -> Option<ConfigError> {
    earlier(
        wrong_one::<bool>(resolver, "diagnostics.config_endpoint.enabled"),
        wrong_address::<SocketAddr>(resolver, "diagnostics.config_endpoint.bind_address", resolver.addresses.config_endpoint),
    )
}

proof fn lemma_config_endpoint_flaw(resolver: Resolver)
    ensures
        ConfigEndpointConfig::flaw(resolver) == config_endpoint_is_wrong(resolver),
{
    lemma_wrong_one::<bool>(parameters::diagnostics_config_endpoint_enabled(), resolver);
    lemma_wrong_address::<SocketAddr>(parameters::diagnostics_config_endpoint_bind_address(), resolver, resolver.addresses.config_endpoint);
}

/// What is wrong with the section, if anything.
pub open spec fn tls_is_wrong(resolver: Resolver) -> Option<ConfigError> {
    earlier(
        wrong_one::<bool>(resolver, "tls.enabled"),
        earlier(
            wrong_one::<FsPath>(resolver, "tls.cert_path"),
            earlier(
                wrong_one::<FsPath>(resolver, "tls.key_path"),
                if !on(resolver, "tls.enabled") {
                    None
                } else if unset(resolver, "tls.cert_path") {
                    Some(
                        ConfigError::TlsPath {
                            id: "tls.cert_path",
                            argument: "--tls-cert-path",
                            environment: "NETIXFS_TLS_CERT_PATH",
                        },
                    )
                } else if unset(resolver, "tls.key_path") {
                    Some(
                        ConfigError::TlsPath {
                            id: "tls.key_path",
                            argument: "--tls-key-path",
                            environment: "NETIXFS_TLS_KEY_PATH",
                        },
                    )
                } else {
                    None
                },
            ),
        ),
    )
}

proof fn lemma_tls_flaw(resolver: Resolver)
    ensures
        TlsConfig::flaw(resolver) == tls_is_wrong(resolver),
{
    lemma_wrong_one::<bool>(parameters::tls_enabled(), resolver);
    lemma_wrong_optional::<FsPath>(parameters::tls_cert_path(), resolver);
    lemma_wrong_optional::<FsPath>(parameters::tls_key_path(), resolver);
    if resolver.sees(parameters::tls_enabled()) is Ok {
        lemma_wrong_flag(parameters::tls_enabled(), resolver);
    }
}

/// What is wrong with the section, if anything.
pub open spec fn cors_is_wrong(resolver: Resolver) -> Option<ConfigError> {
    earlier(
        wrong_one::<bool>(resolver, "cors.enabled"),
        earlier(
            wrong_list::<String>(resolver, "cors.allowed_origins"),
            if on(resolver, "cors.enabled") && none_listed::<String>(
                resolver,
                "cors.allowed_origins",
            ) {
                Some(ConfigError::CorsOrigins)
            } else {
                earlier(
                    wrong_list::<String>(resolver, "cors.allowed_methods"),
                    if !only_methods(resolver) {
                        Some(ConfigError::CorsMethod)
                    } else {
                        earlier(
                            wrong_list::<String>(resolver, "cors.allowed_request_headers"),
                            earlier(
                                wrong_list::<String>(resolver, "cors.exposed_response_headers"),
                                earlier(
                                    wrong_one::<HumanDuration>(resolver, "cors.max_age"),
                                    earlier(
                                        wrong_one::<bool>(resolver, "cors.allow_credentials"),
                                        wrong_one::<bool>(resolver, "cors.allow_private_network"),
                                    ),
                                ),
                            ),
                        )
                    },
                )
            },
        ),
    )
}

proof fn lemma_cors_flaw(resolver: Resolver)
    ensures
        CorsConfig::flaw(resolver) == cors_is_wrong(resolver),
{
    lemma_wrong_one::<bool>(parameters::cors_enabled(), resolver);
    lemma_wrong_list::<String>(parameters::cors_allowed_origins(), resolver);
    lemma_wrong_list::<String>(parameters::cors_allowed_methods(), resolver);
    lemma_wrong_list::<String>(parameters::cors_allowed_request_headers(), resolver);
    lemma_wrong_list::<String>(parameters::cors_exposed_response_headers(), resolver);
    lemma_wrong_one::<HumanDuration>(parameters::cors_max_age(), resolver);
    lemma_wrong_one::<bool>(parameters::cors_allow_credentials(), resolver);
    lemma_wrong_one::<bool>(parameters::cors_allow_private_network(), resolver);
    if resolver.sees(parameters::cors_enabled()) is Ok {
        lemma_wrong_flag(parameters::cors_enabled(), resolver);
    }
    if resolver.sees(parameters::cors_allowed_methods()) is Ok {
        lemma_listed(parameters::cors_allowed_methods(), resolver);
        let names = resolver.sees(parameters::cors_allowed_methods())->Ok_0.0;
        let texts = listed_texts(resolver, "cors.allowed_methods")->0;
        assert forall|i: int| 0 <= i < texts.len() implies #[trigger] texts[i] == names[i] by {
            assert(<String as ListItem>::of_text(texts[i]) == Some(texts[i]));
        }
        assert(texts =~= names);
        assert forall|i: int| 0 <= i < names.len() implies is_method(#[trigger] names[i])
            == method_name(names[i]) by {
            lemma_method_name(names[i]);
        }
    }
}

/// What is wrong with the section, if anything.
pub open spec fn filesystem_is_wrong(resolver: Resolver) -> Option<ConfigError> {
    earlier(
        wrong_list::<Root>(resolver, "filesystem.allowed_roots"),
        if none_listed::<Root>(resolver, "filesystem.allowed_roots") {
            Some(
                ConfigError::Roots {
                    id: "filesystem.allowed_roots",
                    argument: "--allowed-root",
                    environment: "NETIXFS_FILESYSTEM_ALLOWED_ROOTS",
                },
            )
        } else {
            earlier(
                wrong_one::<bool>(resolver, "filesystem.read_only"),
                earlier(
                    wrong_one::<FileMode>(resolver, "filesystem.default_file_mode"),
                    earlier(
                        wrong_one::<FileMode>(resolver, "filesystem.default_dir_mode"),
                        earlier(
                            wrong_one::<FileMode>(resolver, "filesystem.umask"),
                            earlier(
                                wrong_one::<SymlinkPolicy>(resolver, "filesystem.symlink_policy"),
                                wrong_one::<bool>(resolver, "filesystem.allow_mount_crossing"),
                            ),
                        ),
                    ),
                ),
            )
        },
    )
}

proof fn lemma_filesystem_flaw(resolver: Resolver)
    ensures
        FilesystemConfig::flaw(resolver) == filesystem_is_wrong(resolver),
{
    lemma_wrong_list::<Root>(parameters::filesystem_allowed_roots(), resolver);
    lemma_wrong_one::<bool>(parameters::filesystem_read_only(), resolver);
    lemma_wrong_one::<FileMode>(parameters::filesystem_default_file_mode(), resolver);
    lemma_wrong_one::<FileMode>(parameters::filesystem_default_dir_mode(), resolver);
    lemma_wrong_optional::<FileMode>(parameters::filesystem_umask(), resolver);
    lemma_wrong_one::<SymlinkPolicy>(parameters::filesystem_symlink_policy(), resolver);
    lemma_wrong_one::<bool>(parameters::filesystem_allow_mount_crossing(), resolver);
}

/// What is wrong with the section, if anything.
pub open spec fn jwt_is_wrong(resolver: Resolver) -> Option<ConfigError> {
    earlier(
        wrong_one::<FsPath>(resolver, "auth.jwt.public_key_path"),
        earlier(
            wrong_one::<Url>(resolver, "auth.jwt.public_key_url"),
            earlier(
                wrong_one::<FsPath>(resolver, "auth.jwt.jwks_path"),
                earlier(
                    wrong_one::<Url>(resolver, "auth.jwt.jwks_url"),
                    match place_of_keys(resolver) {
                        Err(error) => Some(error),
                        Ok(_) => earlier(
                            wrong_one::<String>(resolver, "auth.jwt.issuer"),
                            earlier(
                                wrong_one::<bool>(resolver, "auth.jwt.require_issuer"),
                                earlier(
                                    wrong_one::<String>(resolver, "auth.jwt.audience"),
                                    earlier(
                                        wrong_one::<bool>(resolver, "auth.jwt.require_audience"),
                                        earlier(
                                            wrong_one::<String>(
                                                resolver,
                                                "auth.jwt.username_claim",
                                            ),
                                            wrong_one::<HumanDuration>(
                                                resolver,
                                                "auth.jwt.remote_key_refresh_interval",
                                            ),
                                        ),
                                    ),
                                ),
                            ),
                        ),
                    },
                ),
            ),
        ),
    )
}

proof fn lemma_places(resolver: Resolver)
    requires
        wrong_one::<FsPath>(resolver, "auth.jwt.public_key_path") is None,
        wrong_one::<Url>(resolver, "auth.jwt.public_key_url") is None,
        wrong_one::<FsPath>(resolver, "auth.jwt.jwks_path") is None,
        wrong_one::<Url>(resolver, "auth.jwt.jwks_url") is None,
    ensures
        JwtConfig::choice_seen(resolver) == place_of_keys(resolver),
{
    lemma_wrong_optional::<FsPath>(parameters::auth_jwt_public_key_path(), resolver);
    lemma_wrong_optional::<Url>(parameters::auth_jwt_public_key_url(), resolver);
    lemma_wrong_optional::<FsPath>(parameters::auth_jwt_jwks_path(), resolver);
    lemma_wrong_optional::<Url>(parameters::auth_jwt_jwks_url(), resolver);
}

proof fn lemma_jwt_flaw(resolver: Resolver)
    ensures
        JwtConfig::flaw(resolver) == jwt_is_wrong(resolver),
{
    lemma_wrong_optional::<FsPath>(parameters::auth_jwt_public_key_path(), resolver);
    lemma_wrong_optional::<Url>(parameters::auth_jwt_public_key_url(), resolver);
    lemma_wrong_optional::<FsPath>(parameters::auth_jwt_jwks_path(), resolver);
    lemma_wrong_optional::<Url>(parameters::auth_jwt_jwks_url(), resolver);
    if wrong_one::<FsPath>(resolver, "auth.jwt.public_key_path") is None && wrong_one::<Url>(
        resolver,
        "auth.jwt.public_key_url",
    ) is None && wrong_one::<FsPath>(resolver, "auth.jwt.jwks_path") is None && wrong_one::<Url>(
        resolver,
        "auth.jwt.jwks_url",
    ) is None {
        lemma_places(resolver);
    }
    lemma_wrong_optional::<String>(parameters::auth_jwt_issuer(), resolver);
    lemma_wrong_one::<bool>(parameters::auth_jwt_require_issuer(), resolver);
    lemma_wrong_optional::<String>(parameters::auth_jwt_audience(), resolver);
    lemma_wrong_one::<bool>(parameters::auth_jwt_require_audience(), resolver);
    lemma_wrong_text(parameters::auth_jwt_username_claim(), resolver);
    lemma_wrong_one::<HumanDuration>(parameters::auth_jwt_remote_key_refresh_interval(), resolver);
}

/// What is wrong with a configuration, if anything.
#[verifier::opaque]
pub open spec fn is_wrong(resolver: Resolver) -> Option<ConfigError> {
    earlier(
        server_is_wrong(resolver),
        earlier(
            tls_is_wrong(resolver),
            earlier(
                cors_is_wrong(resolver),
                earlier(
                    jwt_is_wrong(resolver),
                    earlier(
                        filesystem_is_wrong(resolver),
                        earlier(
                            operations_is_wrong(resolver),
                            earlier(
                                limits_is_wrong(resolver),
                                earlier(
                                    streaming_is_wrong(resolver),
                                    earlier(
                                        pool_is_wrong(resolver),
                                        earlier(
                                            logging_is_wrong(resolver),
                                            earlier(
                                                metrics_is_wrong(resolver),
                                                config_endpoint_is_wrong(resolver),
                                            ),
                                        ),
                                    ),
                                ),
                            ),
                        ),
                    ),
                ),
            ),
        ),
    )
}

/// What is wrong by these laws is what the resolution goes by.
pub proof fn lemma_flaw(resolver: Resolver)
    ensures
        Config::flaw(resolver) == is_wrong(resolver),
{
    reveal(is_wrong);
    lemma_server_flaw(resolver);
    lemma_tls_flaw(resolver);
    lemma_cors_flaw(resolver);
    lemma_jwt_flaw(resolver);
    lemma_filesystem_flaw(resolver);
    lemma_operations_flaw(resolver);
    lemma_limits_flaw(resolver);
    lemma_streaming_flaw(resolver);
    lemma_pool_flaw(resolver);
    lemma_logging_flaw(resolver);
    lemma_metrics_flaw(resolver);
    lemma_config_endpoint_flaw(resolver);
}

/// A configuration is refused exactly if something is wrong with it, and the first such thing is
/// told: a knob whose argument or whose value in the configuration file does not fit, a path that
/// TLS lacks, an origin that CORS lacks, a text that is no method, a lack of one place for keys, or
/// a lack of roots.
pub proof fn law_refused_only_for_a_reason(
    config_file: Value<Option<FsPath>>,
    resolver: Resolver,
    outcome: Result<Config, ConfigError>,
)
    requires
        call_ensures(Config::resolve, (config_file, resolver), outcome),
    ensures
        outcome is Ok <==> is_wrong(resolver) is None,
        outcome matches Err(error) ==> is_wrong(resolver) == Some(error),
{
    lemma_flaw(resolver);
}

/// Keys come from the knob that was set in the source that comes first, a key set before a public
/// key.
pub proof fn law_keys_come_from_the_first_source(
    config_file: Value<Option<FsPath>>,
    resolver: Resolver,
    config: Config,
)
    requires
        call_ensures(Config::resolve, (config_file, resolver), Ok::<Config, ConfigError>(config)),
    ensures
        place_of_keys(resolver) == Ok::<JwtKind, ConfigError>(
            match config.auth.jwt.source {
                JwtSource::PublicKeyPath(_) => JwtKind::PublicKeyPath,
                JwtSource::PublicKeyUrl(_) => JwtKind::PublicKeyUrl,
                JwtSource::JwksPath(_) => JwtKind::JwksPath,
                JwtSource::JwksUrl(_) => JwtKind::JwksUrl,
            },
        ),
{
    lemma_jwt_flaw(resolver);
    lemma_places(resolver);
}

/// A configuration that is accepted keeps the constraints between its knobs.
pub proof fn law_constraints_are_kept(
    config_file: Value<Option<FsPath>>,
    resolver: Resolver,
    config: Config,
)
    requires
        call_ensures(Config::resolve, (config_file, resolver), Ok::<Config, ConfigError>(config)),
    ensures
        config.tls.enabled.value ==> config.tls.cert_path.value is Some
            && config.tls.key_path.value is Some,
        config.cors.enabled.value ==> config.cors.allowed_origins.value@.len() > 0,
        config.filesystem.allowed_roots.value@.len() > 0,
        forall|i: int|
            0 <= i < config.cors.allowed_methods.value@.len() ==> method_name(
                #[trigger] config.cors.allowed_methods.value@[i].name@,
            ),
{
    let methods = config.cors.allowed_methods.value;
    assert forall|i: int| 0 <= i < methods@.len() implies method_name(
        #[trigger] methods@[i].name@,
    ) by {
        assert(methods.deep_view()[i] == methods@[i].deep_view());
        lemma_method_name(methods@[i].name@);
    }
}

} // verus!
