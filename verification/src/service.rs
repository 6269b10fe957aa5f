//! How requests for files are answered.
use crate::path::{admissible, joined, law_admissible_path_stays_within, within, FsPath};
use crate::status::{BAD_REQUEST, FORBIDDEN, INTERNAL_SERVER_ERROR, NOT_FOUND};
use vstd::prelude::*;
use vstd::utf8::encode_utf8;

verus! {

/// Joins a requested path to the directory of the user. A path that could lead elsewhere is
/// refused before the filesystem is asked.
pub fn candidate_path(user_data_root: &FsPath, file_path: &str) -> (outcome: Result<FsPath, u16>)
    ensures
        match outcome {
            Ok(candidate) => admissible(encode_utf8(file_path@)) && candidate@ == joined(
                user_data_root@,
                encode_utf8(file_path@),
            ),
            Err(status) => !admissible(encode_utf8(file_path@)) && status == FORBIDDEN,
        },
{
    let requested: FsPath = FsPath::new(file_path);
    if requested.is_admissible() {
        Ok(user_data_root.join(&requested))
    } else {
        Err(FORBIDDEN)
    }
}

/// What the filesystem answers to the question for the real path of a candidate.
#[derive(Debug)]
pub enum Located<P> {
    /// The real path.
    Found(P),
    /// Permission denied (`EACCES`, `EPERM`).
    Denied,
    /// A file where a directory is needed, or the reverse (`ENOTDIR`, `EISDIR`).
    WrongKind,
    /// There is none, or it cannot be found.
    Missing,
}

impl Located<FsPath> {
    /// The answer, with the bytes of the path.
    pub open spec fn bytes(self) -> Located<Seq<u8>> {
        match self {
            Located::Found(path) => Located::Found(path@),
            Located::Denied => Located::Denied,
            Located::WrongKind => Located::WrongKind,
            Located::Missing => Located::Missing,
        }
    }
}

/// What the filesystem answers when a file is opened.
#[derive(Debug, Clone, Copy, PartialEq, Eq)]
pub enum Opening {
    /// The file is open.
    Opened,
    /// Permission denied (`EACCES`, `EPERM`).
    Denied,
    /// A file where a directory is needed, or the reverse (`ENOTDIR`, `EISDIR`).
    WrongKind,
    /// There is no such file (`ENOENT`).
    Missing,
    /// Anything else.
    Failed,
}

/// Whether the real path of a candidate may be used, and the status code if not.
pub open spec fn contained(user_data_root: Seq<u8>, located: Located<Seq<u8>>) -> Result<
    Seq<u8>,
    u16,
> {
    match located {
        Located::Found(path) => if within(path, user_data_root) {
            Ok(path)
        } else {
            Err(FORBIDDEN)
        },
        Located::Denied => Err(FORBIDDEN),
        Located::WrongKind => Err(BAD_REQUEST),
        Located::Missing => Err(NOT_FOUND),
    }
}

/// Keeps a requested path inside the directory of the user, where `located` is the answer to the
/// question for the real path of the candidate.
pub fn sanitize_path(user_data_root: &FsPath, located: Located<FsPath>) -> (outcome: Result<
    FsPath,
    u16,
>)
    ensures
        match outcome {
            Ok(path) => contained(user_data_root@, located.bytes()) == Ok::<Seq<u8>, u16>(path@),
            Err(status) => contained(user_data_root@, located.bytes()) == Err::<Seq<u8>, u16>(
                status,
            ),
        },
{
    match located {
        Located::Found(path) => {
            if path.starts_with(user_data_root) {
                Ok(path)
            } else {
                Err(FORBIDDEN)
            }
        },
        Located::Denied => Err(FORBIDDEN),
        Located::WrongKind => Err(BAD_REQUEST),
        Located::Missing => Err(NOT_FOUND),
    }
}

/// What comes of opening a file: that it is sent, or a status code.
pub open spec fn verdict_on_opening(opening: Opening) -> Result<(), u16> {
    match opening {
        Opening::Opened => Ok(()),
        Opening::Denied => Err(FORBIDDEN),
        Opening::WrongKind => Err(BAD_REQUEST),
        Opening::Missing => Err(NOT_FOUND),
        Opening::Failed => Err(INTERNAL_SERVER_ERROR),
    }
}

/// The answer to a request for the content of a file: that it is sent, or a status code, where
/// `located` is what the filesystem says of the candidate, `present` whether there is a file, and
/// `opening` what comes of opening it.
pub open spec fn verdict(
    user_data_root: Seq<u8>,
    requested: Seq<u8>,
    located: Located<Seq<u8>>,
    present: bool,
    opening: Opening,
) -> Result<(), u16> {
    if admissible(requested) {
        verdict_on_path(user_data_root, located, present, opening)
    } else {
        Err(FORBIDDEN)
    }
}

/// The answer once the filesystem has been asked for the candidate.
pub open spec fn verdict_on_path(
    user_data_root: Seq<u8>,
    located: Located<Seq<u8>>,
    present: bool,
    opening: Opening,
) -> Result<(), u16> {
    match contained(user_data_root, located) {
        Err(status) => Err(status),
        Ok(_) => if present {
            verdict_on_opening(opening)
        } else {
            Err(NOT_FOUND)
        },
    }
}

/// What is to be done next to answer a request for the content of a file.
#[derive(Debug)]
pub enum ReadStep {
    /// Find the real path.
    Canonicalize(FsPath),
    /// Find out whether there is a file.
    Inspect(FsPath),
    /// Open the file.
    Open(FsPath),
    /// Send the content of the file that was opened.
    Send,
    /// Answer with this status code.
    Refuse(u16),
}

/// A request for the content of a file.
#[derive(Debug)]
pub struct ReadFile {
    pub user_data_root: FsPath,
    pub step: ReadStep,
}

impl ReadFile {
    /// Only paths inside the directory of the user are inspected or opened, and only a path that
    /// leads there by its components is looked up.
    pub open spec fn well_formed(self) -> bool {
        match self.step {
            ReadStep::Canonicalize(path) => self.user_data_root@.len() > 0 ==> within(
                path@,
                self.user_data_root@,
            ),
            ReadStep::Inspect(path) => within(path@, self.user_data_root@),
            ReadStep::Open(path) => within(path@, self.user_data_root@),
            _ => true,
        }
    }

    /// The answer that the request is on its way to, if the filesystem goes on to answer like this.
    pub open spec fn outcome(
        self,
        located: Located<Seq<u8>>,
        present: bool,
        opening: Opening,
    ) -> Result<(), u16> {
        match self.step {
            ReadStep::Canonicalize(_) => verdict_on_path(
                self.user_data_root@,
                located,
                present,
                opening,
            ),
            ReadStep::Inspect(path) => verdict_on_path(
                self.user_data_root@,
                Located::Found(path@),
                present,
                opening,
            ),
            ReadStep::Open(path) => verdict_on_path(
                self.user_data_root@,
                Located::Found(path@),
                true,
                opening,
            ),
            ReadStep::Send => Ok(()),
            ReadStep::Refuse(status) => Err(status),
        }
    }

    /// Starts with the path that was requested.
    pub fn new(user_data_root: FsPath, file_path: &str) -> (request: ReadFile)
        ensures
            request.well_formed(),
            request.user_data_root == user_data_root,
            if admissible(encode_utf8(file_path@)) {
                request.step matches ReadStep::Canonicalize(path) && path@ == joined(
                    user_data_root@,
                    encode_utf8(file_path@),
                )
            } else {
                request.step == ReadStep::Refuse(FORBIDDEN)
            },
            forall|located: Located<Seq<u8>>, present: bool, opening: Opening| #[trigger]
                request.outcome(located, present, opening) == verdict(
                    user_data_root@,
                    encode_utf8(file_path@),
                    located,
                    present,
                    opening,
                ),
    {
        match candidate_path(&user_data_root, file_path) {
            Ok(candidate) => {
                proof {
                    if user_data_root@.len() > 0 {
                        law_admissible_path_stays_within(user_data_root@, encode_utf8(file_path@));
                    }
                }
                ReadFile { user_data_root, step: ReadStep::Canonicalize(candidate) }
            },
            Err(status) => ReadFile { user_data_root, step: ReadStep::Refuse(status) },
        }
    }

    /// Goes on with the real path, if there is one.
    pub fn canonicalized(self, located: Located<FsPath>) -> (request: ReadFile)
        requires
            self.step is Canonicalize,
        ensures
            request.well_formed(),
            request.user_data_root == self.user_data_root,
            match contained(self.user_data_root@, located.bytes()) {
                Ok(path) => request.step matches ReadStep::Inspect(next) && next@ == path,
                Err(status) => request.step == ReadStep::Refuse(status),
            },
            forall|other: Located<Seq<u8>>, present: bool, opening: Opening| #[trigger]
                request.outcome(other, present, opening) == self.outcome(
                    located.bytes(),
                    present,
                    opening,
                ),
    {
        match sanitize_path(&self.user_data_root, located) {
            Ok(path) => ReadFile {
                user_data_root: self.user_data_root,
                step: ReadStep::Inspect(path),
            },
            Err(status) => ReadFile {
                user_data_root: self.user_data_root,
                step: ReadStep::Refuse(status),
            },
        }
    }

    /// Goes on with whether there is a file.
    pub fn inspected(self, present: bool) -> (request: ReadFile)
        requires
            self.well_formed(),
            self.step is Inspect,
        ensures
            request.well_formed(),
            request.user_data_root == self.user_data_root,
            request.step == (if present {
                ReadStep::Open(self.step->Inspect_0)
            } else {
                ReadStep::Refuse(NOT_FOUND)
            }),
            forall|located: Located<Seq<u8>>, opening: Opening| #[trigger]
                request.outcome(located, present, opening) == self.outcome(
                    located,
                    present,
                    opening,
                ),
    {
        let step: ReadStep = match self.step {
            ReadStep::Inspect(path) => {
                if present {
                    ReadStep::Open(path)
                } else {
                    ReadStep::Refuse(NOT_FOUND)
                }
            },
            other => other,
        };
        ReadFile { user_data_root: self.user_data_root, step }
    }

    /// Goes on with what came of opening the file.
    pub fn opened(self, outcome: Opening) -> (request: ReadFile)
        requires
            self.well_formed(),
            self.step is Open,
        ensures
            request.well_formed(),
            request.user_data_root == self.user_data_root,
            request.step == (match outcome {
                Opening::Opened => ReadStep::Send,
                Opening::Denied => ReadStep::Refuse(FORBIDDEN),
                Opening::WrongKind => ReadStep::Refuse(BAD_REQUEST),
                Opening::Missing => ReadStep::Refuse(NOT_FOUND),
                Opening::Failed => ReadStep::Refuse(INTERNAL_SERVER_ERROR),
            }),
            forall|located: Located<Seq<u8>>, present: bool| #[trigger]
                request.outcome(located, present, outcome) == self.outcome(
                    located,
                    present,
                    outcome,
                ),
    {
        let step: ReadStep = match outcome {
            Opening::Opened => ReadStep::Send,
            Opening::Denied => ReadStep::Refuse(FORBIDDEN),
            Opening::WrongKind => ReadStep::Refuse(BAD_REQUEST),
            Opening::Missing => ReadStep::Refuse(NOT_FOUND),
            Opening::Failed => ReadStep::Refuse(INTERNAL_SERVER_ERROR),
        };
        ReadFile { user_data_root: self.user_data_root, step }
    }
}

/// The content of a file is sent only for an admissible request whose real path lies inside the
/// directory of the user; a request that is not admissible is answered the same whatever the
/// filesystem holds.
pub proof fn law_only_files_inside_are_sent(
    user_data_root: Seq<u8>,
    requested: Seq<u8>,
    located: Located<Seq<u8>>,
    present: bool,
    opening: Opening,
)
    ensures
        verdict(user_data_root, requested, located, present, opening) is Ok <==> admissible(
            requested,
        ) && present && opening is Opened && (located matches Located::Found(path) && within(
            path,
            user_data_root,
        )),
        !admissible(requested) ==> verdict(user_data_root, requested, located, present, opening)
            == Err::<(), u16>(FORBIDDEN),
{
}

/// What the filesystem denies is forbidden, whether it denies to look the path up or to open the
/// file.
pub proof fn law_denied_is_forbidden(
    user_data_root: Seq<u8>,
    requested: Seq<u8>,
    path: Seq<u8>,
    present: bool,
    opening: Opening,
)
    ensures
        verdict(user_data_root, requested, Located::Denied, present, opening) == Err::<(), u16>(
            FORBIDDEN,
        ),
        present && within(path, user_data_root) ==> verdict(
            user_data_root,
            requested,
            Located::Found(path),
            present,
            Opening::Denied,
        ) == Err::<(), u16>(FORBIDDEN),
{
}

} // verus!
