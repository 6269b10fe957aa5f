//! Who sends a request, and where their files are.
use crate::path::{
    admissible_piece, joined, law_admissible_path_stays_within, lemma_single_piece, within, FsPath,
    DOT,
};
use crate::status::UNAUTHORIZED;
use vstd::prelude::*;
use vstd::utf8::encode_utf8;

verus! {

/// Tells users apart.
pub struct Authenticator {
    data_root: FsPath,
}

/// A user.
#[derive(Debug, PartialEq, Eq, PartialOrd, Ord)]
pub struct User {
    data_root: FsPath,
}

/// The directory of the only user there is so far, below the directory of all users.
pub const USER_DIRECTORY: &'static str = "myuser";

impl Authenticator {
    /// The directory below which all users have their files.
    pub closed spec fn root(self) -> Seq<u8> {
        self.data_root@
    }

    /// Tells users apart whose files are below `data_root`.
    pub fn new(data_root: FsPath) -> (authenticator: Authenticator)
        ensures
            authenticator.root() == data_root@,
    {
        Authenticator { data_root }
    }

    /// Finds out who sends a request, where `token_is_valid` is whether it carries a valid token.
    pub fn check_auth(&self, token_is_valid: bool) -> (user: Option<User>)
        ensures
            match user {
                Some(user) => token_is_valid && user.root() == joined(
                    self.root(),
                    encode_utf8(USER_DIRECTORY@),
                ),
                None => !token_is_valid,
            },
    {
        if token_is_valid {
            Some(User { data_root: self.data_root.join(&FsPath::new(USER_DIRECTORY)) })
        } else {
            None
        }
    }

    /// Lets the sender of a request in, where `token_is_valid` is whether it carries a valid token.
    pub fn authorize(&self, token_is_valid: bool) -> (outcome: Result<User, u16>)
        ensures
            match outcome {
                Ok(user) => token_is_valid && user.root() == joined(
                    self.root(),
                    encode_utf8(USER_DIRECTORY@),
                ),
                Err(status) => !token_is_valid && status == UNAUTHORIZED,
            },
    {
        match self.check_auth(token_is_valid) {
            Some(user) => Ok(user),
            None => Err(UNAUTHORIZED),
        }
    }
}

/// The files of every user are below the directory of all users.
pub proof fn law_user_directory_is_below(root: Seq<u8>)
    requires
        root.len() > 0,
    ensures
        within(joined(root, encode_utf8(USER_DIRECTORY@)), root),
{
    let bytes = seq![109u8, 121, 117, 115, 101, 114];
    assert(encode_utf8(USER_DIRECTORY@) =~= bytes) by {
        reveal_strlit("myuser");
        reveal_with_fuel(encode_utf8, 7);
        assert(109u32 & 0x7f == 109 && 121u32 & 0x7f == 121 && 117u32 & 0x7f == 117 && 115u32 & 0x7f
            == 115 && 101u32 & 0x7f == 101 && 114u32 & 0x7f == 114) by (bit_vector);
    }
    lemma_single_piece(bytes);
    assert(admissible_piece(bytes)) by {
        assert(bytes.len() != seq![DOT, DOT].len());
    }
    law_admissible_path_stays_within(root, bytes);
}

impl User {
    /// The directory with the files of the user.
    pub closed spec fn root(self) -> Seq<u8> {
        self.data_root@
    }

    /// The directory with the files of the user.
    pub fn data_root(&self) -> (path: &FsPath)
        ensures
            path@ == self.root(),
    {
        &self.data_root
    }
}

impl Clone for Authenticator {
    fn clone(&self) -> (copy: Authenticator)
        ensures
            copy.root() == self.root(),
    {
        Authenticator { data_root: self.data_root.clone() }
    }
}

impl Clone for User {
    fn clone(&self) -> (copy: User)
        ensures
            copy.root() == self.root(),
    {
        User { data_root: self.data_root.clone() }
    }
}

} // verus!
