//! Named filesystem roots, written `id=path`.
use crate::path::FsPath;
use crate::text::{
    halves, lemma_first_half, lemma_halves, lemma_trimmed, lemma_trimmed_adds_nothing, quote,
    quoted, split_once, trim, trimmed,
};
use vstd::prelude::*;
use vstd::utf8::encode_utf8;

verus! {

/// A filesystem root that clients may reach under its `id`.
#[derive(Debug, PartialEq, Eq, PartialOrd, Ord)]
pub struct Root {
    pub id: String,
    pub path: FsPath,
}

/// What a root holds.
pub struct RootView {
    pub id: Seq<char>,
    pub path: Seq<u8>,
}

impl View for Root {
    type V = RootView;

    open spec fn view(&self) -> RootView {
        RootView { id: self.id@, path: self.path@ }
    }
}

impl DeepView for Root {
    type V = RootView;

    open spec fn deep_view(&self) -> RootView {
        self@
    }
}

impl Clone for Root {
    fn clone(&self) -> (copy: Root)
        ensures
            copy@ == self@,
    {
        Root { id: self.id.clone(), path: self.path.clone() }
    }
}

/// Why a text is no root.
#[derive(Debug, Clone, Copy, PartialEq, Eq)]
pub enum RootFlaw {
    MissingSeparator,
    EmptyId,
    EmptyPath,
}

/// A text that is no root, and why.
#[derive(Debug, PartialEq, Eq)]
pub struct InvalidRoot {
    pub flaw: RootFlaw,
    pub text: String,
}

/// The root that a text denotes: the id stands before the first `=` and the path behind it, both
/// without the white space around them, and neither may be empty.
pub open spec fn root_of(text: Seq<char>) -> Result<RootView, RootFlaw> {
    match halves(text, '=') {
        None => Err(RootFlaw::MissingSeparator),
        Some((id, path)) => if trimmed(id).len() == 0 {
            Err(RootFlaw::EmptyId)
        } else if trimmed(path).len() == 0 {
            Err(RootFlaw::EmptyPath)
        } else {
            Ok(RootView { id: trimmed(id), path: encode_utf8(trimmed(path)) })
        },
    }
}

/// An id without `=` and a path, neither of them blank, make the root that names them.
pub proof fn law_written_root_is_read_back(id: Seq<char>, path: Seq<char>)
    requires
        trimmed(id).len() > 0,
        trimmed(path).len() > 0,
        !id.contains('='),
    ensures
        root_of(id + seq!['='] + path) == Ok::<RootView, RootFlaw>(
            RootView { id: trimmed(id), path: encode_utf8(trimmed(path)) },
        ),
{
    assert forall|i: int| 0 <= i < id.len() implies id[i] != '=' by {
        assert(id.contains(id[i]));
    }
    lemma_halves(id, path, '=');
}

/// A root that was read has an id and a path, white space around its id is gone, and there is no `=`
/// in its id.
pub proof fn law_root_is_never_blank(text: Seq<char>)
    ensures
        root_of(text) matches Ok(root) ==> {
            &&& root.id.len() > 0
            &&& trimmed(root.id) == root.id
            &&& !root.id.contains('=')
            &&& root.path.len() > 0
        },
{
    if let Some((id, path)) = halves(text, '=') {
        lemma_trimmed(id);
        lemma_first_half(text, '=');
        lemma_trimmed_adds_nothing(id, '=');
        if trimmed(path).len() > 0 {
            lemma_encoded_not_empty(trimmed(path));
        }
    }
}

proof fn lemma_encoded_not_empty(text: Seq<char>)
    requires
        text.len() > 0,
    ensures
        encode_utf8(text).len() > 0,
{
    reveal_with_fuel(encode_utf8, 2);
}

impl InvalidRoot {
    /// What is wrong with the text.
    pub fn message(&self) -> (message: String)
        ensures
            message@ == (match self.flaw {
                RootFlaw::MissingSeparator => "invalid root "@ + quoted(self.text@)
                    + ": expected \"id=path\" format"@,
                RootFlaw::EmptyId => "root id must not be empty in "@ + quoted(self.text@),
                RootFlaw::EmptyPath => "root path must not be empty in "@ + quoted(self.text@),
            }),
    {
        let quotation: String = quote(self.text.as_str());
        match self.flaw {
            RootFlaw::MissingSeparator => {
                let mut message: String = "invalid root ".to_owned();
                message.append(quotation.as_str());
                message.append(": expected \"id=path\" format");
                message
            },
            RootFlaw::EmptyId => "root id must not be empty in ".to_owned().concat(
                quotation.as_str(),
            ),
            RootFlaw::EmptyPath => "root path must not be empty in ".to_owned().concat(
                quotation.as_str(),
            ),
        }
    }
}

impl core::str::FromStr for Root {
    type Err = InvalidRoot;

    /// Reads a root from text in `id=path` format.
    fn from_str(s: &str) -> (outcome: Result<Root, InvalidRoot>)
        ensures
            match outcome {
                Ok(root) => root_of(s@) == Ok::<RootView, RootFlaw>(root@),
                Err(error) => root_of(s@) == Err::<RootView, RootFlaw>(error.flaw) && error.text@
                    == s@,
            },
    {
        match split_once(s, '=') {
            None => Err(InvalidRoot { flaw: RootFlaw::MissingSeparator, text: s.to_owned() }),
            Some((before, after)) => {
                let id: &str = trim(before);
                let path: &str = trim(after);
                if id.is_empty() {
                    Err(InvalidRoot { flaw: RootFlaw::EmptyId, text: s.to_owned() })
                } else if path.is_empty() {
                    Err(InvalidRoot { flaw: RootFlaw::EmptyPath, text: s.to_owned() })
                } else {
                    Ok(Root { id: id.to_owned(), path: FsPath::new(path) })
                }
            },
        }
    }
}

} // verus!
