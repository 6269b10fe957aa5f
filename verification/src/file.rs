//! The TOML configuration file: its tables, and how a dotted key finds a value in them.
use crate::text::{
    lemma_halves, lemma_halves_shrink, lemma_no_halves, lemma_segments_not_empty, same_text,
    segments, split_once,
};
use toml::Value as TomlValue;
use vstd::prelude::*;

verus! {

/// `toml::Value`: a value of the configuration file. Its content is `tree_of`.
#[verifier::external_type_specification]
#[verifier::external_body]
pub struct ExTomlValue(TomlValue);

/// `toml::map::Map`, of which `toml::Table` is one: a table of the configuration file. Its content
/// is `entries_of`.
#[verifier::external_type_specification]
#[verifier::external_body]
#[verifier::reject_recursive_types(K)]
#[verifier::reject_recursive_types(V)]
pub struct ExTomlMap<K, V>(toml::map::Map<K, V>);

/// `toml::de::Error`: why a text is no TOML document.
#[verifier::external_type_specification]
#[verifier::external_body]
pub struct ExTomlError(toml::de::Error);

/// What a TOML value holds. A date is known by its text, a floating-point number only as such.
pub enum Tree {
    Text(Seq<char>),
    Datetime(Seq<char>),
    Integer(i64),
    Float,
    Boolean(bool),
    Array(Seq<Tree>),
    Table(Map<Seq<char>, Tree>),
}

/// What a TOML value holds.
pub uninterp spec fn tree_of(value: TomlValue) -> Tree;

/// What a TOML table holds.
pub uninterp spec fn entries_of(table: toml::Table) -> Map<Seq<char>, Tree>;

/// What `toml::from_str` makes of a text: the entries of the document.
pub uninterp spec fn parsed_document(text: Seq<char>) -> Option<Map<Seq<char>, Tree>>;

/// A TOML value, opened one level deep.
pub enum Node {
    Text(String),
    Datetime(String),
    Integer(i64),
    Float,
    Boolean(bool),
    Array(Vec<TomlValue>),
    Table(toml::Table),
}

impl Node {
    /// What the opened value holds.
    pub open spec fn tree(self) -> Tree {
        match self {
            Node::Text(text) => Tree::Text(text@),
            Node::Datetime(text) => Tree::Datetime(text@),
            Node::Integer(number) => Tree::Integer(number),
            Node::Float => Tree::Float,
            Node::Boolean(flag) => Tree::Boolean(flag),
            Node::Array(items) => Tree::Array(items@.map_values(|item: TomlValue| tree_of(item))),
            Node::Table(table) => Tree::Table(entries_of(table)),
        }
    }
}

/// The value under a path of keys, where every key but the last leads to a table.
pub open spec fn value_at(entries: Map<Seq<char>, Tree>, path: Seq<Seq<char>>) -> Option<Tree>
    decreases path.len(),
{
    if path.len() == 0 || !entries.contains_key(path.first()) {
        None
    } else if path.len() == 1 {
        Some(entries[path.first()])
    } else {
        match entries[path.first()] {
            Tree::Table(inner) => value_at(inner, path.drop_first()),
            _ => None,
        }
    }
}

/// The value under a key whose parts are separated by dots.
pub open spec fn value_under(entries: Map<Seq<char>, Tree>, key: Seq<char>) -> Option<Tree> {
    value_at(entries, segments(key, '.'))
}

/// A dotted key descends table by table: its first part names a table, in which the rest of the key
/// is looked up. A key without a dot names an entry.
pub proof fn law_dotted_key_descends(
    entries: Map<Seq<char>, Tree>,
    part: Seq<char>,
    rest: Seq<char>,
)
    requires
        forall|i: int| 0 <= i < part.len() ==> part[i] != '.',
    ensures
        value_under(entries, part) == (if entries.contains_key(part) {
            Some(entries[part])
        } else {
            None
        }),
        value_under(entries, part + seq!['.'] + rest) == (match value_under(entries, part) {
            Some(Tree::Table(inner)) => value_under(inner, rest),
            _ => None,
        }),
{
    lemma_no_halves(part, '.');
    lemma_halves(part, rest, '.');
    lemma_segments_not_empty(rest, '.');
    let path = segments(part + seq!['.'] + rest, '.');
    assert(path == seq![part] + segments(rest, '.'));
    assert(path.drop_first() =~= segments(rest, '.'));
    assert(path.first() == part);
}

/// The text of a value that can be read as one: a string, or a date.
pub open spec fn text_of(tree: Tree) -> Option<Seq<char>> {
    match tree {
        Tree::Text(text) => Some(text),
        Tree::Datetime(text) => Some(text),
        _ => None,
    }
}

/// Whether a value is an empty array or an empty table.
pub open spec fn hollow(tree: Tree) -> bool {
    match tree {
        Tree::Array(items) => items.len() == 0,
        Tree::Table(entries) => entries.dom() =~= Set::empty(),
        _ => false,
    }
}

/// Whether a value selects the choice called `word`: it is that word, or a table with that word
/// as its only key and something hollow under it.
pub open spec fn selects(tree: Tree, word: Seq<char>) -> bool {
    match tree {
        Tree::Text(text) => text == word,
        Tree::Table(entries) => entries.dom() =~= set![word] && hollow(entries[word]),
        _ => false,
    }
}

/// Whether there are exactly this many entries.
pub open spec fn has_size(entries: Map<Seq<char>, Tree>, count: nat) -> bool {
    entries.dom().finite() && entries.dom().len() == count
}

/// Opens a `toml::Value` by its variant and clones what it carries.
///
/// Trusted: what a value holds is what its variant carries; a date is shown by its `Display`.
#[verifier::external_body]
pub(crate) fn open_value(value: &TomlValue) -> (node: Node)
    ensures
        node.tree() == tree_of(*value),
{
    match value {
        TomlValue::String(text) => Node::Text(text.clone()),
        TomlValue::Datetime(date) => Node::Datetime(date.to_string()),
        TomlValue::Integer(number) => Node::Integer(*number),
        TomlValue::Float(_) => Node::Float,
        TomlValue::Boolean(flag) => Node::Boolean(*flag),
        TomlValue::Array(items) => Node::Array(items.clone()),
        TomlValue::Table(table) => Node::Table(table.clone()),
    }
}

/// Calls `toml::Table::get` and clones what it finds.
///
/// Trusted: there is a value exactly where the table has an entry for the key, and it is the
/// value of that entry.
#[verifier::external_body]
fn table_get(table: &toml::Table, key: &str) -> (value: Option<TomlValue>)
    ensures
        match value {
            Some(value) => entries_of(*table).contains_key(key@) && tree_of(value) == entries_of(
                *table,
            )[key@],
            None => !entries_of(*table).contains_key(key@),
        },
{
    table.get(key).cloned()
}

/// Calls `toml::Table::len`.
///
/// Trusted: a table has finitely many entries, and this is their number.
#[verifier::external_body]
fn table_len(table: &toml::Table) -> (count: usize)
    ensures
        has_size(entries_of(*table), count as nat),
{
    table.len()
}

/// Calls `toml::from_str` for a whole document.
///
/// Trusted: the outcome depends on the text alone.
#[verifier::external_body]
pub(crate) fn parse_document(text: &str) -> (outcome: Result<toml::Table, toml::de::Error>)
    ensures
        match outcome {
            Ok(table) => parsed_document(text@) == Some(entries_of(table)),
            Err(_) => parsed_document(text@) is None,
        },
{
    toml::from_str::<toml::Table>(text)
}

/// Finds the value under a dotted key.
pub fn find(table: &toml::Table, key: &str) -> (found: Option<TomlValue>)
    ensures
        match found {
            Some(value) => value_under(entries_of(*table), key@) == Some(tree_of(value)),
            None => value_under(entries_of(*table), key@) is None,
        },
    decreases key@.len(),
{
    match split_once(key, '.') {
        None => {
            assert(segments(key@, '.') =~= seq![key@]);
            table_get(table, key)
        },
        Some((head, rest)) => {
            proof {
                lemma_halves_shrink(key@, '.');
                lemma_segments_not_empty(rest@, '.');
                assert(segments(key@, '.') == seq![head@] + segments(rest@, '.'));
                assert(segments(key@, '.').drop_first() =~= segments(rest@, '.'));
                assert(segments(key@, '.').first() == head@);
            }
            match table_get(table, head) {
                Some(value) => match open_value(&value) {
                    Node::Table(inner) => find(&inner, rest),
                    _ => None,
                },
                None => None,
            }
        },
    }
}

/// Reads a value as text.
pub(crate) fn read_text(value: &TomlValue) -> (text: Option<String>)
    ensures
        match text {
            Some(text) => text_of(tree_of(*value)) == Some(text@),
            None => text_of(tree_of(*value)) is None,
        },
{
    match open_value(value) {
        Node::Text(text) => Some(text),
        Node::Datetime(text) => Some(text),
        _ => None,
    }
}

/// Whether an opened value selects the choice called `word`.
pub(crate) fn is_selection(node: &Node, word: &str) -> (answer: bool)
    ensures
        answer == selects(node.tree(), word@),
{
    match node {
        Node::Text(text) => same_text(text.as_str(), word),
        Node::Table(table) => {
            if table_len(table) != 1 {
                assert(set![word@].len() == 1);
                return false;
            }
            match table_get(table, word) {
                Some(value) => {
                    proof {
                        lemma_only_member(entries_of(*table).dom(), word@);
                    }
                    match open_value(&value) {
                        Node::Array(items) => items.len() == 0,
                        Node::Table(inner) => {
                            let count: usize = table_len(&inner);
                            proof {
                                if count == 0 {
                                    entries_of(inner).dom().lemma_len0_is_empty();
                                } else {
                                    assert(Set::<Seq<char>>::empty().len() == 0);
                                }
                            }
                            count == 0
                        },
                        _ => false,
                    }
                },
                None => {
                    assert(set![word@].contains(word@));
                    false
                },
            }
        },
        _ => false,
    }
}

proof fn lemma_only_member(members: Set<Seq<char>>, word: Seq<char>)
    requires
        members.finite(),
        members.len() == 1,
        members.contains(word),
    ensures
        members =~= set![word],
{
    let others = members.remove(word);
    assert(others.len() == 0);
    others.lemma_len0_is_empty();
    assert forall|member: Seq<char>| members.contains(member) implies member == word by {
        if member != word {
            assert(others.contains(member));
        }
    }
}

} // verus!
